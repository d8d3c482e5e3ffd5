//! Names and addresses used when sending templated email.
use vstd::prelude::*;

verus! {

/// The file name of the HTML template `template`.
pub open spec fn template_file_text(template: Seq<char>) -> Seq<char> {
    template + ".html"@
}

/// The file pattern that matches every HTML template under `dir`.
pub open spec fn template_pattern_text(dir: Seq<char>) -> Seq<char> {
    dir + "/**/*.html"@
}

/// The sender mailbox text: the display name, then the address in angle
/// brackets.
pub open spec fn mailbox_text(name: Seq<char>, email: Seq<char>) -> Seq<char> {
    name + " <"@ + email + ">"@
}

/// The file name under which the template `template` is rendered.
pub fn template_file_name(template: &str) -> (s: String)
    ensures
        s@ == template_file_text(template@),
{
    let mut s = template.to_owned();
    s.append(".html");
    s
}

/// The pattern from which all templates under `dir` are loaded.
pub fn template_pattern(dir: &str) -> (s: String)
    ensures
        s@ == template_pattern_text(dir@),
{
    let mut s = dir.to_owned();
    s.append("/**/*.html");
    s
}

/// The sender mailbox, `Name <address>`.
pub fn mailbox(name: &str, email: &str) -> (s: String)
    ensures
        s@ == mailbox_text(name@, email@),
{
    let mut s = name.to_owned();
    s.append(" <");
    s.append(email);
    s.append(">");
    s
}

} // verus!
