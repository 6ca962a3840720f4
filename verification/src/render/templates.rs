//! Which sections a template shows, in which order, and the HTML frames
//! that centre a section or set two columns side by side.

use crate::config::profile::Template;
use vstd::prelude::*;
use vstd::string::*;

verus! {

/// The sections that a template includes, in order.
#[derive(Debug, Clone, Copy, PartialEq, Eq)]
pub enum Section {
    Header,
    About,
    Social,
    Skills,
    Stats,
    Projects,
    Blog,
    Dynamic,
    Sponsors,
    Extras,
}

/// All ten sections in their usual order.
pub open spec fn all_sections() -> Seq<Section> {
    seq![
        Section::Header,
        Section::About,
        Section::Social,
        Section::Skills,
        Section::Stats,
        Section::Projects,
        Section::Blog,
        Section::Dynamic,
        Section::Sponsors,
        Section::Extras,
    ]
}

/// The ordered sections of a template.
pub open spec fn spec_sections_for_template(template: Template) -> Seq<Section> {
    match template {
        Template::Minimal => seq![Section::Header, Section::About, Section::Social],
        Template::Full => all_sections(),
        Template::DeveloperCard => seq![
            Section::Header,
            Section::About,
            Section::Skills,
            Section::Stats,
            Section::Projects,
            Section::Social,
        ],
        Template::MultiColumn => all_sections(),
    }
}

/// Returns the ordered list of sections for a given template.
pub fn sections_for_template(template: &Template) -> (res: Vec<Section>)
    ensures
        res@ == spec_sections_for_template(*template),
{
    let res = match template {
        Template::Minimal => vec![Section::Header, Section::About, Section::Social],
        Template::Full => vec![
            Section::Header,
            Section::About,
            Section::Social,
            Section::Skills,
            Section::Stats,
            Section::Projects,
            Section::Blog,
            Section::Dynamic,
            Section::Sponsors,
            Section::Extras,
        ],
        Template::DeveloperCard => vec![
            Section::Header,
            Section::About,
            Section::Skills,
            Section::Stats,
            Section::Projects,
            Section::Social,
        ],
        Template::MultiColumn => vec![
            Section::Header,
            Section::About,
            Section::Social,
            Section::Skills,
            Section::Stats,
            Section::Projects,
            Section::Blog,
            Section::Dynamic,
            Section::Sponsors,
            Section::Extras,
        ],
    };
    res
}

/// Whether to use centered alignment for a template.
pub fn is_centered(template: &Template) -> (res: bool)
    ensures
        res == (*template == Template::DeveloperCard),
{
    match template {
        Template::DeveloperCard => true,
        _ => false,
    }
}

/// Whether to use multi-column layout.
pub fn is_multi_column(template: &Template) -> (res: bool)
    ensures
        res == (*template == Template::MultiColumn),
{
    match template {
        Template::MultiColumn => true,
        _ => false,
    }
}

/// The content inside a centring `div`.
pub open spec fn spec_wrap_centered(content: Seq<char>) -> Seq<char> {
    "<div align=\"center\">\n\n"@ + content + "\n\n</div>"@
}

/// Wrap content in centered alignment HTML.
pub fn wrap_centered(content: &str) -> (res: String)
    ensures
        res@ == spec_wrap_centered(content@),
{
    let mut out = String::from_str("<div align=\"center\">\n\n");
    out.append(content);
    out.append("\n\n</div>");
    out
}

/// Two contents side by side in a table of two equal columns.
pub open spec fn spec_wrap_multi_column(left: Seq<char>, right: Seq<char>) -> Seq<char> {
    "<table>\n<tr>\n<td valign=\"top\" width=\"50%\">\n\n"@ + left
        + "\n\n</td>\n<td valign=\"top\" width=\"50%\">\n\n"@ + right
        + "\n\n</td>\n</tr>\n</table>"@
}

/// Wrap sections in a multi-column HTML table.
/// Left column gets the first half of sections, right column gets the rest.
pub fn wrap_multi_column(left: &str, right: &str) -> (res: String)
    ensures
        res@ == spec_wrap_multi_column(left@, right@),
{
    let mut out = String::from_str("<table>\n<tr>\n<td valign=\"top\" width=\"50%\">\n\n");
    out.append(left);
    out.append("\n\n</td>\n<td valign=\"top\" width=\"50%\">\n\n");
    out.append(right);
    out.append("\n\n</td>\n</tr>\n</table>");
    out
}

/// Every template starts with the header, and shows no section twice.
pub proof fn lemma_template_sections_distinct(template: Template, i: int, j: int)
    requires
        0 <= i < j < spec_sections_for_template(template).len(),
    ensures
        spec_sections_for_template(template)[0] == Section::Header,
        spec_sections_for_template(template)[i] != spec_sections_for_template(template)[j],
{
}

} // verus!
