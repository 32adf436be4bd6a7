use resume_polish::prompt::{
    get_polish_prompt, SectionCategory, EDUCATION_TEMPLATE, GENERIC_TEMPLATE, PROJECT_TEMPLATE,
    SKILLS_TEMPLATE, WORK_EXPERIENCE_TEMPLATE,
};

#[test]
fn known_categories_select_their_templates() {
    let text = "Rust, Go and SQL";
    let cases = [
        ("skills", SKILLS_TEMPLATE, "Quantify skill levels"),
        ("work_experience", WORK_EXPERIENCE_TEMPLATE, "STAR method"),
        ("project", PROJECT_TEMPLATE, "technology stack"),
        ("education", EDUCATION_TEMPLATE, "academic tone"),
    ];
    for (name, template, marker) in cases {
        let p = get_polish_prompt(text, name);
        assert_eq!(p, format!("{}{}", template, text));
        assert!(p.contains(text));
        assert!(p.contains(marker));
        assert!(p.contains("Return only the polished text without additional explanations"));
        assert!(p.ends_with(text));
    }
}

#[test]
fn unknown_category_selects_generic_template() {
    for name in ["", "Skills", "hobbies", "skills "] {
        let p = get_polish_prompt("Likes chess", name);
        assert_eq!(p, format!("{}Likes chess", GENERIC_TEMPLATE));
        assert!(p.starts_with(
            "As a professional resume consultant, please help polish the following content. Requirements:\n1. Use professional and concise language\n"
        ));
    }
}

#[test]
fn prompt_layout_is_exact() {
    let p = get_polish_prompt("Managed a team", "work_experience");
    assert_eq!(
        p,
        "As a professional resume consultant, please help polish the following work experience description. Requirements:\n\
         1. Use the STAR method (Situation-Task-Action-Result)\n\
         2. Highlight specific achievements and data\n\
         3. Start with action verbs to show initiative\n\
         4. Demonstrate personal contribution and value\n\
         5. Return only the polished text without additional explanations\n\n\
         Original:\nManaged a team"
    );
}

#[test]
fn empty_text_gives_template_alone() {
    assert_eq!(get_polish_prompt("", "education"), EDUCATION_TEMPLATE);
}

#[test]
fn category_names_are_matched_exactly() {
    assert_eq!(SectionCategory::from_name("skills"), SectionCategory::Skills);
    assert_eq!(SectionCategory::from_name("work_experience"), SectionCategory::WorkExperience);
    assert_eq!(SectionCategory::from_name("project"), SectionCategory::Project);
    assert_eq!(SectionCategory::from_name("education"), SectionCategory::Education);
    assert_eq!(SectionCategory::from_name("projects"), SectionCategory::Other);
    assert_eq!(SectionCategory::from_name("EDUCATION"), SectionCategory::Other);
    assert_eq!(SectionCategory::Project.template(), PROJECT_TEMPLATE);
}
