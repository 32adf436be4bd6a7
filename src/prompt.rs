//! The instructions sent with a text, chosen by the kind of resume section.

use vstd::prelude::*;
use vstd::string::StringExecFns;
use crate::text::{chars_of, has_infix};

verus! {

broadcast use vstd::string::group_string_axioms;

/// The kind of resume section a text belongs to, which selects the rewrite instructions.
#[derive(Clone, Copy, Debug, PartialEq, Eq, Structural)]
pub enum SectionCategory {
    Skills,
    WorkExperience,
    Project,
    Education,
    Other,
}

/// The category that a section name selects; unknown names select `Other`.
pub open spec fn category_of(name: Seq<char>) -> SectionCategory {
    if name == "skills"@ {
        SectionCategory::Skills
    } else if name == "work_experience"@ {
        SectionCategory::WorkExperience
    } else if name == "project"@ {
        SectionCategory::Project
    } else if name == "education"@ {
        SectionCategory::Education
    } else {
        SectionCategory::Other
    }
}

/// Tests whether two texts hold the same characters.
pub fn same_text(a: &str, b: &str) -> (r: bool)
    ensures
        r == (a@ == b@),
{
    let v = chars_of(a);
    let w = chars_of(b);
    if v.len() != w.len() {
        return false;
    }
    let mut i: usize = 0;
    while i < v.len()
        invariant
            v@ == a@,
            w@ == b@,
            v.len() == w.len(),
            i <= v.len(),
            v@.take(i as int) == w@.take(i as int),
        decreases v.len() - i,
    {
        if v[i] != w[i] {
            assert(a@[i as int] != b@[i as int]);
            return false;
        }
        assert(v@.take(i + 1) =~= v@.take(i as int).push(v[i as int]));
        assert(w@.take(i + 1) =~= w@.take(i as int).push(w[i as int]));
        i = i + 1;
    }
    assert(v@ =~= v@.take(i as int));
    assert(w@ =~= w@.take(i as int));
    true
}

impl SectionCategory {
    /// The category that the section name `name` selects.
    pub fn from_name(name: &str) -> (c: SectionCategory)
        ensures
            c == category_of(name@),
    {
        if same_text(name, "skills") {
            SectionCategory::Skills
        } else if same_text(name, "work_experience") {
            SectionCategory::WorkExperience
        } else if same_text(name, "project") {
            SectionCategory::Project
        } else if same_text(name, "education") {
            SectionCategory::Education
        } else {
            SectionCategory::Other
        }
    }
}

/// The instructions for a section of skills.
pub const SKILLS_TEMPLATE: &'static str = "As a professional resume consultant, please help polish the following skills description. Requirements:\n\
    1. Use professional terminology and industry-standard expressions\n\
    2. Highlight the depth and breadth of skills\n\
    3. Quantify skill levels (if possible)\n\
    4. Keep it concise and professional\n\
    5. Return only the polished text without additional explanations\n\n\
    Original:\n";

/// The instructions for a section of work experience.
pub const WORK_EXPERIENCE_TEMPLATE: &'static str = "As a professional resume consultant, please help polish the following work experience description. Requirements:\n\
    1. Use the STAR method (Situation-Task-Action-Result)\n\
    2. Highlight specific achievements and data\n\
    3. Start with action verbs to show initiative\n\
    4. Demonstrate personal contribution and value\n\
    5. Return only the polished text without additional explanations\n\n\
    Original:\n";

/// The instructions for a section describing a project.
pub const PROJECT_TEMPLATE: &'static str = "As a professional resume consultant, please help polish the following project experience description. Requirements:\n\
    1. Clearly explain project background, scale, and complexity\n\
    2. Highlight technology stack and architecture\n\
    3. Emphasize personal role and key contributions\n\
    4. Quantify project outcomes and impact\n\
    5. Return only the polished text without additional explanations\n\n\
    Original:\n";

/// The instructions for a section of education.
pub const EDUCATION_TEMPLATE: &'static str = "As a professional resume consultant, please help polish the following education experience description. Requirements:\n\
    1. Highlight academic achievements and honors\n\
    2. Emphasize relevant coursework and research projects\n\
    3. Demonstrate learning ability and professional depth\n\
    4. Maintain professionalism and academic tone\n\
    5. Return only the polished text without additional explanations\n\n\
    Original:\n";

/// The instructions for a section of any other kind.
pub const GENERIC_TEMPLATE: &'static str = "As a professional resume consultant, please help polish the following content. Requirements:\n\
    1. Use professional and concise language\n\
    2. Highlight key points and highlights\n\
    3. Enhance persuasiveness and attractiveness\n\
    4. Maintain authenticity\n\
    5. Return only the polished text without additional explanations\n\n\
    Original:\n";

/// The instructions that precede the text of a section of category `c`.
pub open spec fn template_of(c: SectionCategory) -> Seq<char> {
    match c {
        SectionCategory::Skills => SKILLS_TEMPLATE@,
        SectionCategory::WorkExperience => WORK_EXPERIENCE_TEMPLATE@,
        SectionCategory::Project => PROJECT_TEMPLATE@,
        SectionCategory::Education => EDUCATION_TEMPLATE@,
        SectionCategory::Other => GENERIC_TEMPLATE@,
    }
}

/// The full prompt for rewriting `text` as a section named `section_type`.
pub open spec fn prompt_of(text: Seq<char>, section_type: Seq<char>) -> Seq<char> {
    template_of(category_of(section_type)) + text
}

impl SectionCategory {
    /// The instructions that precede the text of a section of this category.
    pub fn template(self) -> (r: &'static str)
        ensures
            r@ == template_of(self),
    {
        match self {
            SectionCategory::Skills => SKILLS_TEMPLATE,
            SectionCategory::WorkExperience => WORK_EXPERIENCE_TEMPLATE,
            SectionCategory::Project => PROJECT_TEMPLATE,
            SectionCategory::Education => EDUCATION_TEMPLATE,
            SectionCategory::Other => GENERIC_TEMPLATE,
        }
    }
}

/// Builds the prompt that asks for `text` to be rewritten as a section named
/// `section_type`: the category's instructions, then the text verbatim.
pub fn get_polish_prompt(text: &str, section_type: &str) -> (r: String)
    ensures
        r@ == prompt_of(text@, section_type@),
{
    let category = SectionCategory::from_name(section_type);
    let mut r = String::from_str(category.template());
    r.append(text);
    r
}

/// Every prompt ends with the text verbatim, after the instructions of the
/// category that the section name selects; each of the four known names selects
/// its own instructions, and any other name the generic ones.
pub proof fn lemma_prompt_holds_text(text: Seq<char>, section_type: Seq<char>)
    ensures
        has_infix(prompt_of(text, section_type), text),
        prompt_of(text, section_type) == template_of(category_of(section_type)) + text,
        prompt_of(text, "skills"@) == SKILLS_TEMPLATE@ + text,
        prompt_of(text, "work_experience"@) == WORK_EXPERIENCE_TEMPLATE@ + text,
        prompt_of(text, "project"@) == PROJECT_TEMPLATE@ + text,
        prompt_of(text, "education"@) == EDUCATION_TEMPLATE@ + text,
        section_type != "skills"@ && section_type != "work_experience"@ && section_type
            != "project"@ && section_type != "education"@ ==> prompt_of(text, section_type)
            == GENERIC_TEMPLATE@ + text,
{
    let p = prompt_of(text, section_type);
    let k = template_of(category_of(section_type)).len() as int;
    assert(p.subrange(k, k + text.len()) =~= text);
    reveal_strlit("skills");
    reveal_strlit("work_experience");
    reveal_strlit("project");
    reveal_strlit("education");
    assert("work_experience"@.len() != "skills"@.len());
    assert("project"@.len() != "skills"@.len());
    assert("project"@.len() != "work_experience"@.len());
    assert("education"@.len() != "skills"@.len());
    assert("education"@.len() != "work_experience"@.len());
    assert("education"@.len() != "project"@.len());
}

} // verus!
