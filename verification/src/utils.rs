//! Repository identifiers: the `owner/name` form, its remote URL, its
//! local filesystem location and the process name derived from it, and
//! command-line splitting.

use vstd::prelude::*;

use crate::text::{find_char_from, first_index_of, lemma_first_index_of, split_ws, split_ws_exec};

verus! {

/// Milliseconds since the Unix epoch, or zero when the clock reads
/// earlier than the epoch.
///
/// Relies on std::time::SystemTime (`now`, `duration_since`,
/// `as_millis`).  Nothing is promised of the result: it depends on the
/// clock.
#[verifier::external_body]
pub fn get_unix_time() -> u128 {
    match std::time::SystemTime::now().duration_since(std::time::SystemTime::UNIX_EPOCH) {
        Ok(t) => t.as_millis(),
        Err(_) => 0,
    }
}

/// The remote URL a repository identifier stands for.
pub fn repo_to_url(repo: &str) -> (r: String)
    ensures
        r@ == "https://github.com/"@ + repo@,
{
    String::from_str("https://github.com/").concat(repo)
}

/// The path segments of a URL, as its host-relative path splits on `/`.
///
/// Relies on url::Url::parse and url::Url::path_segments: the segments
/// are a function of the URL string alone; `None` when the string is
/// not an absolute URL or the URL cannot be a base.
#[verifier::external_body]
fn url_path_segments(s: &str) -> (r: Option<Vec<String>>)
    ensures
        match r {
            Some(v) => url_segments_of(s@) == Some(v.deep_view()),
            None => url_segments_of(s@) is None,
        },
{
    match url::Url::parse(s) {
        Ok(u) => u.path_segments().map(|it| it.map(|x| x.to_string()).collect()),
        Err(_) => None,
    }
}

/// What `url_path_segments` returns for a given URL string.
pub uninterp spec fn url_segments_of(s: Seq<char>) -> Option<Seq<Seq<char>>>;

/// The `owner/name` identifier a repository URL points at: its first
/// two path segments.  `None` when the string is not a URL with at
/// least two path segments.
pub fn url_to_repo(url: &str) -> (r: Option<String>)
    ensures
        ({
            let segs = url_segments_of(url@);
            &&& (r is Some <==> segs is Some && segs.unwrap().len() >= 2)
            &&& (r is Some ==> r.unwrap()@ == segs.unwrap()[0] + "/"@ + segs.unwrap()[1])
        }),
{
    match url_path_segments(url) {
        None => None,
        Some(segs) => {
            if segs.len() >= 2 {
                let mut joined = segs[0].clone();
                joined.append("/");
                joined.append(segs[1].as_str());
                proof {
                    let sv = segs.deep_view();
                    assert(sv[0] == segs@[0]@);
                    assert(sv[1] == segs@[1]@);
                }
                Some(joined)
            } else {
                None
            }
        },
    }
}

/// Whether a string already is a plain `owner/name` identifier:
/// exactly one `/`, with something on both sides.
pub open spec fn is_owner_name(s: Seq<char>) -> bool {
    let i = first_index_of(s, '/');
    &&& 0 < i
    &&& i < s.len()
    &&& i + 1 < s.len()
    &&& first_index_of(s.skip(i + 1 as int), '/') == s.len() - i - 1
}

/// Resolves a deploy request's repository field, which may be a URL or
/// a plain `owner/name` identifier, to the identifier.
pub fn parse_repo_ref(s: &str) -> (r: Option<String>)
    ensures
        ({
            let segs = url_segments_of(s@);
            if segs is Some && segs.unwrap().len() >= 2 {
                r is Some && r.unwrap()@ == segs.unwrap()[0] + "/"@ + segs.unwrap()[1]
            } else if is_owner_name(s@) {
                r is Some && r.unwrap()@ == s@
            } else {
                r is None
            }
        }),
{
    match url_to_repo(s) {
        Some(repo) => Some(repo),
        None => {
            let len = s.unicode_len();
            proof {
                assert(s@.skip(0) =~= s@);
            }
            let i = find_char_from(s, '/', 0);
            if 0 < i && i < len && i + 1 < len {
                let j = find_char_from(s, '/', i + 1);
                if j == len {
                    Some(s.to_owned())
                } else {
                    None
                }
            } else {
                None
            }
        },
    }
}

/// The owner part of an `owner/name` identifier: everything before the
/// first `/`.
pub open spec fn repo_owner(s: Seq<char>) -> Seq<char> {
    s.take(first_index_of(s, '/') as int)
}

/// The name part of an `owner/name` identifier: everything between the
/// first `/` and the next `/` or the end.
pub open spec fn repo_name(s: Seq<char>) -> Seq<char> {
    let rest = s.skip(first_index_of(s, '/') + 1 as int);
    rest.take(first_index_of(rest, '/') as int)
}

/// Splits an `owner/name` identifier into its two parts.
pub fn split_repo<'a>(repo: &'a str) -> (r: (&'a str, &'a str))
    requires
        repo@.contains('/'),
    ensures
        r.0@ == repo_owner(repo@),
        r.1@ == repo_name(repo@),
{
    let len = repo.unicode_len();
    proof {
        lemma_first_index_of(repo@, '/');
        assert(repo@.skip(0) =~= repo@);
    }
    let i = find_char_from(repo, '/', 0);
    assert(i < len);
    let j = find_char_from(repo, '/', i + 1);
    let owner = repo.substring_char(0, i);
    let name = repo.substring_char(i + 1, j);
    proof {
        assert(owner@ =~= repo_owner(repo@));
        let rest = repo@.skip(i + 1);
        assert(name@ =~= rest.take(first_index_of(rest, '/') as int));
    }
    (owner, name)
}

/// Neither part a split yields contains a `/`.
pub proof fn lemma_repo_parts_slash_free(s: Seq<char>)
    ensures
        !repo_owner(s).contains('/'),
        !repo_name(s).contains('/'),
{
    lemma_first_index_of(s, '/');
    let i = first_index_of(s, '/') as int;
    assert forall|j: int| 0 <= j < repo_owner(s).len() implies repo_owner(s)[j] != '/' by {
        assert(repo_owner(s)[j] == s[j]);
    }
    let rest = s.skip(i + 1);
    lemma_first_index_of(rest, '/');
    assert forall|j: int| 0 <= j < repo_name(s).len() implies repo_name(s)[j] != '/' by {
        assert(repo_name(s)[j] == rest[j]);
    }
}

/// The local working-copy location for a repository: the data
/// directory, a `repos` segment, the owner, and the name.
pub open spec fn repo_local_path(base: Seq<char>, owner: Seq<char>, name: Seq<char>) -> Seq<
    char,
> {
    base + "/repos/"@ + owner + "/"@ + name
}

/// Maps an `owner/name` identifier to its local path under `data_dir`.
pub fn repo_to_path(data_dir: &str, repo: &str) -> (r: String)
    requires
        repo@.contains('/'),
    ensures
        r@ == repo_local_path(data_dir@, repo_owner(repo@), repo_name(repo@)),
{
    let (owner, name) = split_repo(repo);
    String::from_str(data_dir).concat("/repos/").concat(owner).concat("/").concat(name)
}

/// Distinct `(owner, name)` pairs are mapped to distinct local paths:
/// with slash-free parts, equal paths force equal pairs.
pub proof fn lemma_repo_local_path_injective(
    base: Seq<char>,
    o1: Seq<char>,
    n1: Seq<char>,
    o2: Seq<char>,
    n2: Seq<char>,
)
    requires
        !o1.contains('/'),
        !n1.contains('/'),
        !o2.contains('/'),
        !n2.contains('/'),
        repo_local_path(base, o1, n1) == repo_local_path(base, o2, n2),
    ensures
        o1 == o2,
        n1 == n2,
{
    reveal_strlit("/repos/");
    reveal_strlit("/");
    let sep = "/repos/"@;
    let sl = "/"@;
    assert(sep.len() == 7);
    assert(sl.len() == 1 && sl[0] == '/');
    let s = repo_local_path(base, o1, n1);
    let p = (base.len() + sep.len()) as int;
    assert(s.len() == p + o1.len() + 1 + n1.len());
    assert(s.len() == p + o2.len() + 1 + n2.len());
    assert forall|j: int| 0 <= j < o1.len() implies s[p + j] == o1[j] by {}
    assert(s[p + o1.len()] == '/');
    assert forall|j: int| 0 <= j < n1.len() implies s[p + o1.len() + 1 + j] == n1[j] by {}
    assert forall|j: int| 0 <= j < o2.len() implies s[p + j] == o2[j] by {}
    assert(s[p + o2.len()] == '/');
    assert forall|j: int| 0 <= j < n2.len() implies s[p + o2.len() + 1 + j] == n2[j] by {}
    if o1.len() < o2.len() {
        assert(o2[o1.len() as int] == s[p + o1.len()]);
        assert(o2.contains('/'));
    }
    if o2.len() < o1.len() {
        assert(o1[o2.len() as int] == s[p + o2.len()]);
        assert(o1.contains('/'));
    }
    assert(o1.len() == o2.len());
    assert(o1 =~= o2);
    assert(n1 =~= n2);
}

/// The path mapping is injective over identifiers: two `owner/name`
/// identifiers are mapped to the same local path only when they agree
/// on both owner and name.
pub proof fn lemma_repo_path_injective_for_identifiers(
    base: Seq<char>,
    r1: Seq<char>,
    r2: Seq<char>,
)
    requires
        repo_local_path(base, repo_owner(r1), repo_name(r1)) == repo_local_path(
            base,
            repo_owner(r2),
            repo_name(r2),
        ),
    ensures
        repo_owner(r1) == repo_owner(r2),
        repo_name(r1) == repo_name(r2),
{
    lemma_repo_parts_slash_free(r1);
    lemma_repo_parts_slash_free(r2);
    lemma_repo_local_path_injective(base, repo_owner(r1), repo_name(r1), repo_owner(r2), repo_name(r2));
}

/// The supervised-process name for a repository: `pie-owner-name`.
pub fn repo_to_pie_name(repo: &str) -> (r: String)
    requires
        repo@.contains('/'),
    ensures
        r@ == "pie-"@ + repo_owner(repo@) + "-"@ + repo_name(repo@),
{
    let (owner, name) = split_repo(repo);
    String::from_str("pie-").concat(owner).concat("-").concat(name)
}

/// Splits a command line into the program name and its arguments.  An
/// empty or all-whitespace line yields an empty program name and no
/// arguments.
pub fn string_to_cmd_and_args(s: &str) -> (r: (String, Vec<String>))
    ensures
        ({
            let toks = split_ws(s@);
            &&& (toks.len() == 0 ==> r.0@ == Seq::<char>::empty() && r.1.deep_view()
                == Seq::<Seq<char>>::empty())
            &&& (toks.len() > 0 ==> r.0@ == toks[0] && r.1.deep_view() == toks.skip(1))
        }),
{
    let mut toks = split_ws_exec(s);
    if toks.len() == 0 {
        proof {
            assert(toks.deep_view() =~~= Seq::<Seq<char>>::empty());
        }
        (String::new(), toks)
    } else {
        let ghost dv = toks.deep_view();
        let first = toks.remove(0);
        proof {
            assert(toks.deep_view() =~~= dv.skip(1));
        }
        (first, toks)
    }
}

} // verus!
