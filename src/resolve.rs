use vstd::prelude::*;

use crate::mime::{guess_mime, guessed_mime, plain_text};
use crate::text::chars_of;

verus! {

/// The document served for an empty path.
pub open spec fn index_document() -> Seq<char> {
    seq!['i', 'n', 'd', 'e', 'x', '.', 'h', 't', 'm', 'l']
}

/// `p` without its first character where that is a `/`.
pub open spec fn strip_leading_slash(p: Seq<char>) -> Seq<char> {
    if p.len() > 0 && p[0] == '/' {
        p.drop_first()
    } else {
        p
    }
}

/// The path, relative to the static root, that a request path names.
pub open spec fn relative_target(p: Seq<char>) -> Seq<char> {
    let s = strip_leading_slash(p);
    if s.len() == 0 {
        index_document()
    } else {
        s
    }
}

/// A `..` segment starts at `i` in `rel`.
pub open spec fn parent_segment_at(rel: Seq<char>, i: int) -> bool {
    &&& 0 <= i
    &&& i + 2 <= rel.len()
    &&& rel[i] == '.'
    &&& rel[i + 1] == '.'
    &&& (i == 0 || rel[i - 1] == '/')
    &&& (i + 2 == rel.len() || rel[i + 2] == '/')
}

/// Joining `rel` onto the static root cannot leave it: `rel` is not absolute
/// and has no `..` segment.
pub open spec fn stays_under_root(rel: Seq<char>) -> bool {
    &&& !(rel.len() > 0 && rel[0] == '/')
    &&& forall|i: int| !parent_segment_at(rel, i)
}

/// The content type announced for a file at `rel`.
pub open spec fn content_type_of(rel: Seq<char>) -> Seq<char> {
    if rel.contains('.') {
        guessed_mime(rel)
    } else {
        plain_text()
    }
}

/// A file under the static root that a request asks for, and its content type.
pub struct Target {
    pub rel_path: String,
    pub content_type: String,
}

/// A target as values.
pub struct TargetModel {
    pub rel_path: Seq<char>,
    pub content_type: Seq<char>,
}

impl View for Target {
    type V = TargetModel;

    open spec fn view(&self) -> TargetModel {
        TargetModel { rel_path: self.rel_path@, content_type: self.content_type@ }
    }
}

/// What a request for path `p` resolves to: a file under the root, or nothing
/// where the path would leave the root.
pub open spec fn target_of(p: Seq<char>) -> Option<TargetModel> {
    let rel = relative_target(p);
    if stays_under_root(rel) {
        Some(TargetModel { rel_path: rel, content_type: content_type_of(rel) })
    } else {
        None
    }
}

/// The model of an optional target.
pub open spec fn target_view(t: Option<Target>) -> Option<TargetModel> {
    match t {
        Some(t) => Some(t@),
        None => None,
    }
}

/// Whether `rel` holds a `..` segment.
fn has_parent_segment(rel: &Vec<char>) -> (r: bool)
    ensures
        r <==> exists|i: int| parent_segment_at(rel@, i),
{
    let n = rel.len();
    let mut i: usize = 0;
    while i < n && n - i >= 2
        invariant
            n == rel@.len(),
            i <= n,
            forall|j: int| 0 <= j < i ==> !parent_segment_at(rel@, j),
        decreases n - i,
    {
        if rel[i] == '.' && rel[i + 1] == '.' && (i == 0 || rel[i - 1] == '/') && (i + 2 == n
            || rel[i + 2] == '/') {
            assert(parent_segment_at(rel@, i as int));
            return true;
        }
        i = i + 1;
    }
    false
}

/// The relative path that `request_path` names: one leading `/` taken off, and
/// the index document for what is then empty.
pub fn relative_path(request_path: &str) -> (r: String)
    ensures
        r@ == relative_target(request_path@),
{
    let cs = chars_of(request_path);
    let n = cs.len();
    let rest: &str = if n > 0 && cs[0] == '/' {
        request_path.substring_char(1, n)
    } else {
        request_path
    };
    assert(rest@ == strip_leading_slash(request_path@));
    if rest.unicode_len() == 0 {
        let index = "index.html";
        proof {
            reveal_strlit("index.html");
        }
        assert(index@ == index_document());
        index.to_owned()
    } else {
        rest.to_owned()
    }
}

/// Resolves a request path to the file to serve, or to `None` where the path
/// would leave the static root.
pub fn resolve(request_path: &str) -> (r: Option<Target>)
    ensures
        target_view(r) == target_of(request_path@),
        r is Some <==> stays_under_root(relative_target(request_path@)),
        r matches Some(t) ==> t.rel_path@ == relative_target(request_path@) && t.content_type@
            == content_type_of(t.rel_path@),
        r matches Some(t) ==> (!t.rel_path@.contains('.') ==> t.content_type@ == plain_text()),
{
    let rel = relative_path(request_path);
    let cs = chars_of(rel.as_str());
    let absolute = cs.len() > 0 && cs[0] == '/';
    if absolute || has_parent_segment(&cs) {
        None
    } else {
        let content_type = guess_mime(rel.as_str());
        Some(Target { rel_path: rel, content_type })
    }
}

} // verus!
