//! Assembly of image references of the form `[registry/][prefix/]name:tag`.
use regex::Regex;
use vstd::prelude::*;
use vstd::string::StrSliceExecFns;
use vstd::string::StringExecFns;

verus! {

/// Regular expression that matches a run of two or more slashes.
pub const MULTIPLE_SLASH_PATTERN: &'static str = "/{2,}";

/// `acc` extended by `piece`: an empty piece adds nothing, and a slash separates
/// two pieces.
pub open spec fn join_piece(acc: Seq<char>, piece: Seq<char>) -> Seq<char> {
    if piece.len() == 0 {
        acc
    } else if acc.len() == 0 {
        piece
    } else {
        acc + seq!['/'] + piece
    }
}

/// The non-empty ones of `registry`, `prefix` and `name`, joined by slashes.
pub open spec fn joined_pieces(registry: Seq<char>, prefix: Seq<char>, name: Seq<char>) -> Seq<
    char,
> {
    join_piece(join_piece(join_piece(Seq::empty(), registry), prefix), name)
}

/// `s` without every slash that directly follows another slash, so that each
/// run of slashes is left as a single slash.
pub open spec fn squeeze_slashes(s: Seq<char>) -> Seq<char>
    decreases s.len(),
{
    if s.len() == 0 {
        s
    } else if s.len() >= 2 && s[s.len() - 1] == '/' && s[s.len() - 2] == '/' {
        squeeze_slashes(s.drop_last())
    } else {
        squeeze_slashes(s.drop_last()).push(s.last())
    }
}

/// `s` without its first character where that is a slash.
pub open spec fn strip_leading_slash(s: Seq<char>) -> Seq<char> {
    if s.len() > 0 && s[0] == '/' {
        s.subrange(1, s.len() as int)
    } else {
        s
    }
}

/// The repository path of an image: the joined pieces with runs of slashes
/// collapsed and without a leading slash.
pub open spec fn image_path(registry: Seq<char>, prefix: Seq<char>, name: Seq<char>) -> Seq<char> {
    strip_leading_slash(squeeze_slashes(joined_pieces(registry, prefix, name)))
}

/// The full image reference: the path, a colon and the tag.
pub open spec fn image_reference(
    registry: Seq<char>,
    prefix: Seq<char>,
    name: Seq<char>,
    tag: Seq<char>,
) -> Seq<char> {
    image_path(registry, prefix, name) + seq![':'] + tag
}

/// Whether `s` holds a slash at `i` and another one right after it.
pub open spec fn slash_pair_at(s: Seq<char>, i: int) -> bool {
    0 <= i && i + 1 < s.len() && s[i] == '/' && s[i + 1] == '/'
}

/// Whether two slashes stand next to each other somewhere in `s`.
pub open spec fn has_double_slash(s: Seq<char>) -> bool {
    exists|i: int| #[trigger] slash_pair_at(s, i)
}

/// Calls `regex::Regex::new` on `pattern` and `regex::Regex::replace_all` on the
/// compiled expression; `None` when the pattern does not compile.
///
/// Trusted: for the pattern `/{2,}` and the replacement `/`, every maximal run of
/// two or more slashes in `haystack` is replaced by one slash and nothing else
/// changes. Nothing is claimed for other patterns.
#[verifier::external_body]
fn regex_replace_all(pattern: &str, haystack: &str, replacement: &str) -> (r: Option<String>)
    ensures
        pattern@ == MULTIPLE_SLASH_PATTERN@ && replacement@ == seq!['/'] ==> r.is_some()
            && r.unwrap()@ == squeeze_slashes(haystack@),
{
    match Regex::new(pattern) {
        Ok(re) => Some(re.replace_all(haystack, replacement).into_owned()),
        Err(_) => None,
    }
}

/// Appends `piece` to `acc` as `join_piece` describes.
fn push_piece(acc: &mut String, piece: &str)
    ensures
        final(acc)@ == join_piece(old(acc)@, piece@),
{
    if !piece.is_empty() {
        if !acc.as_str().is_empty() {
            proof {
                reveal_strlit("/");
            }
            acc.append("/");
            assert("/"@ =~= seq!['/']);
        }
        acc.append(piece);
    }
}

/// Assembles the reference of an image from the registry, the registry prefix,
/// the image name and the tag.
pub fn assemble_image_reference(registry: &str, prefix: &str, name: &str, tag: &str) -> (r: String)
    ensures
        r@ == image_reference(registry@, prefix@, name@, tag@),
{
    let mut joined = String::new();
    push_piece(&mut joined, registry);
    push_piece(&mut joined, prefix);
    push_piece(&mut joined, name);
    proof {
        reveal_strlit("/");
        reveal_strlit(":");
        assert("/"@ =~= seq!['/']);
        assert(":"@ =~= seq![':']);
    }
    let squeezed = regex_replace_all(MULTIPLE_SLASH_PATTERN, joined.as_str(), "/").unwrap();
    let len = squeezed.as_str().unicode_len();
    let mut reference = if len > 0 && squeezed.as_str().get_char(0) == '/' {
        String::from_str(squeezed.as_str().substring_char(1, len))
    } else {
        squeezed
    };
    reference.append(":");
    reference.append(tag);
    reference
}

/// Squeezing keeps the last character of a sequence that has one.
proof fn lemma_squeeze_keeps_last(s: Seq<char>)
    requires
        s.len() > 0,
    ensures
        squeeze_slashes(s).len() > 0,
        squeeze_slashes(s).last() == s.last(),
    decreases s.len(),
{
    if s.len() >= 2 && s[s.len() - 1] == '/' && s[s.len() - 2] == '/' {
        lemma_squeeze_keeps_last(s.drop_last());
    }
}

/// Squeezing leaves no two slashes next to each other.
proof fn lemma_squeeze_has_no_double_slash(s: Seq<char>)
    ensures
        !has_double_slash(squeeze_slashes(s)),
    decreases s.len(),
{
    if s.len() > 0 {
        let front = s.drop_last();
        lemma_squeeze_has_no_double_slash(front);
        if front.len() > 0 {
            lemma_squeeze_keeps_last(front);
        }
        let squeezed = squeeze_slashes(s);
        assert forall|i: int| !#[trigger] slash_pair_at(squeezed, i) by {
            if slash_pair_at(squeezed, i) {
                if i + 2 < squeezed.len() || squeezed == squeeze_slashes(front) {
                    assert(slash_pair_at(squeeze_slashes(front), i));
                }
            }
        }
    }
}

/// The shape of every assembled image reference: it is the image path, one
/// colon and the tag; the path holds no two slashes in a row; the reference holds
/// none either unless the tag itself does; and the reference is not empty and
/// does not begin with a slash.
pub proof fn lemma_image_reference_shape(
    registry: Seq<char>,
    prefix: Seq<char>,
    name: Seq<char>,
    tag: Seq<char>,
)
    ensures
        ({
            let path = image_path(registry, prefix, name);
            let reference = image_reference(registry, prefix, name, tag);
            &&& reference.len() == path.len() + 1 + tag.len()
            &&& reference.subrange(0, path.len() as int) == path
            &&& reference[path.len() as int] == ':'
            &&& reference.subrange(path.len() as int + 1, reference.len() as int) == tag
            &&& !has_double_slash(path)
            &&& has_double_slash(reference) <==> has_double_slash(tag)
            &&& reference[0] != '/'
        }),
{
    let joined = joined_pieces(registry, prefix, name);
    let squeezed = squeeze_slashes(joined);
    let path = image_path(registry, prefix, name);
    let reference = image_reference(registry, prefix, name, tag);
    lemma_squeeze_has_no_double_slash(joined);
    assert(reference.subrange(0, path.len() as int) =~= path);
    assert(reference.subrange(path.len() as int + 1, reference.len() as int) =~= tag);
    let offset: int = if squeezed.len() > 0 && squeezed[0] == '/' {
        1
    } else {
        0
    };
    assert forall|i: int| !#[trigger] slash_pair_at(path, i) by {
        if slash_pair_at(path, i) {
            assert(slash_pair_at(squeezed, i + offset));
        }
    }
    if path.len() > 0 && path[0] == '/' {
        assert(slash_pair_at(squeezed, 0));
    }
    if has_double_slash(reference) {
        let i = choose|i: int| #[trigger] slash_pair_at(reference, i);
        if i + 1 < path.len() {
            assert(slash_pair_at(path, i));
        }
        assert(slash_pair_at(tag, i - path.len() - 1));
    }
    if has_double_slash(tag) {
        let i = choose|i: int| #[trigger] slash_pair_at(tag, i);
        assert(slash_pair_at(reference, i + path.len() + 1));
    }
}

} // verus!
