//! Normalisation of metadata fields and construction of the target path.

use vstd::prelude::*;
use vstd::string::*;

verus! {

/// Every space of `s` turned into an underscore, every other character kept.
pub open spec fn spaces_to_underscores(s: Seq<char>) -> Seq<char> {
    s.map_values(|c: char| if c == ' ' { '_' } else { c })
}

/// The lower-case form of `s`, as Unicode defines it.
pub uninterp spec fn lower_of(s: Seq<char>) -> Seq<char>;

/// A metadata field in its canonical form: spaces become underscores, then the
/// whole token is lower-cased.
pub open spec fn normalized(s: Seq<char>) -> Seq<char> {
    lower_of(spaces_to_underscores(s))
}

/// The target path built from a destination folder and four fragments that
/// are already normalised: `{dest}/{sess}[{mode}][{name}]_{desc}`.
pub open spec fn path_of(
    dest: Seq<char>,
    sess: Seq<char>,
    mode: Seq<char>,
    name: Seq<char>,
    desc: Seq<char>,
) -> Seq<char> {
    dest + seq!['/'] + sess + seq!['['] + mode + seq![']', '['] + name + seq![']', '_'] + desc
}

/// Relies on `str::replace`, which replaces every match of a pattern; here
/// each single space with a single underscore.
#[verifier::external_body]
fn replace_spaces(s: &str) -> (r: String)
    ensures
        r@ == spaces_to_underscores(s@),
{
    s.replace(" ", "_")
}

/// Relies on `str::to_lowercase`: its result depends on the characters alone.
#[verifier::external_body]
fn lowercase(s: &str) -> (r: String)
    ensures
        r@ == lower_of(s@),
{
    s.to_lowercase()
}

/// Brings one metadata field into its canonical form.
pub fn normalize(s: &str) -> (r: String)
    ensures
        r@ == normalized(s@),
{
    let replaced = replace_spaces(s);
    lowercase(replaced.as_str())
}

/// Joins a destination folder and four normalised fragments into the target
/// path.
pub fn assemble_path(dest: &str, sess: &str, mode: &str, name: &str, desc: &str) -> (r: String)
    ensures
        r@ == path_of(dest@, sess@, mode@, name@, desc@),
{
    let mut r = String::from_str(dest);
    r.append("/");
    r.append(sess);
    r.append("[");
    r.append(mode);
    r.append("][");
    r.append(name);
    r.append("]_");
    r.append(desc);
    proof {
        reveal_strlit("/");
        reveal_strlit("[");
        reveal_strlit("][");
        reveal_strlit("]_");
    }
    assert(r@ =~= path_of(dest@, sess@, mode@, name@, desc@));
    r
}

/// The target path for raw metadata fields: each field is normalised on its
/// own, then the fragments are joined.
pub fn canonical_path(dest: &str, sess: &str, mode: &str, name: &str, desc: &str) -> (r: String)
    ensures
        r@ == path_of(dest@, normalized(sess@), normalized(mode@), normalized(name@), normalized(desc@)),
{
    let s = normalize(sess);
    let m = normalize(mode);
    let n = normalize(name);
    let d = normalize(desc);
    assemble_path(dest, s.as_str(), m.as_str(), n.as_str(), d.as_str())
}

/// Turning spaces into underscores leaves no space behind, so doing it a
/// second time changes nothing.
pub proof fn lemma_spaces_to_underscores_idempotent(s: Seq<char>)
    ensures
        forall|i: int| 0 <= i < spaces_to_underscores(s).len() ==> spaces_to_underscores(s)[i] != ' ',
        spaces_to_underscores(spaces_to_underscores(s)) == spaces_to_underscores(s),
{
    assert(spaces_to_underscores(spaces_to_underscores(s)) =~= spaces_to_underscores(s));
}

} // verus!
