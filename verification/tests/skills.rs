use rustcode::markdown::{skill_from_markdown, DiscoveredSkill};
use rustcode::skills::{find_skill, skill_preview, skill_show_text, skills_list_text, sort_skills};

fn skill(name: &str, description: &str) -> DiscoveredSkill {
    DiscoveredSkill { name: name.to_string(), description: description.to_string(), path: format!("/s/{}", name) }
}

#[test]
fn skills_are_listed_by_name() {
    let sorted = sort_skills(vec![skill("review", "r"), skill("Build", "b"), skill("deploy", "d")]);
    let names: Vec<&str> = sorted.iter().map(|s| s.name.as_str()).collect();
    assert_eq!(names, vec!["Build", "deploy", "review"]);
    assert_eq!(
        skills_list_text(&sorted[..2].to_vec(), "/s"),
        "- Build: b\n  /s/Build\n- deploy: d\n  /s/deploy"
    );
    assert_eq!(skills_list_text(&Vec::new(), "/s"), "No local skills found under /s.");
}

#[test]
fn skills_are_found_ignoring_case() {
    let skills = vec![skill("Build", "b"), skill("deploy", "d")];
    assert_eq!(find_skill(&skills, "BUILD"), Some(0));
    assert_eq!(find_skill(&skills, "Deploy"), Some(1));
    assert_eq!(find_skill(&skills, "lint"), None);
}

#[test]
fn skill_preview_keeps_the_first_lines_of_the_body() {
    let mut raw = String::from("---\nname: big\n---\n\n");
    for i in 0..30 {
        raw.push_str(&format!("line {}\n", i));
    }
    let preview = skill_preview(&raw);
    assert!(preview.starts_with("line 0\nline 1"));
    assert!(preview.ends_with("line 22"));
    let s = skill_from_markdown(&raw, "big", "/s/big".to_string());
    let text = skill_show_text(&s, &preview);
    assert!(text.starts_with("Skill: big\nDescription: line 0\nPath: /s/big\n\nline 0"));
}
