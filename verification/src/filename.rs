use vstd::prelude::*;

verus! {

// Deriving the final filename of a finished download from its URL: the last
// path segment before any query string, passed through a filesystem
// sanitizer; when the URL has no such segment, the sanitized whole URL.

/// What `sanitize_filename::sanitize_with_options` returns for a name, under
/// the fixed options this crate uses. With those options the result depends
/// on the input characters alone.
pub uninterp spec fn sanitized_of(name: Seq<char>) -> Seq<char>;

/// Relies on `sanitize_filename::sanitize_with_options`: it strips characters
/// that filesystems refuse. The options are fixed (Windows rules on, 255-byte
/// truncation on, no replacement string) so the result is the same on every
/// platform.
#[verifier::external_body]
fn sanitize_name(name: &str) -> (r: String)
    ensures
        r@ == sanitized_of(name@),
{
    sanitize_filename::sanitize_with_options(
        name,
        sanitize_filename::Options { windows: true, truncate: true, replacement: "" },
    )
}

/// Index where the query string begins: the first '?', or the end of the URL.
pub open spec fn query_cut(url: Seq<char>) -> int {
    match url.index_of_first('?') {
        Some(q) => q,
        None => url.len() as int,
    }
}

/// The last path segment before the query string, when the URL has a
/// non-empty one.
pub open spec fn last_segment(url: Seq<char>) -> Option<Seq<char>> {
    let q = query_cut(url);
    match url.subrange(0, q).index_of_last('/') {
        Some(k) => if k + 1 < q {
            Some(url.subrange(k + 1, q))
        } else {
            None
        },
        None => None,
    }
}

/// The name a finished download is stored under.
pub open spec fn spec_url_to_filename(url: Seq<char>) -> Seq<char> {
    match last_segment(url) {
        Some(seg) => sanitized_of(seg),
        None => sanitized_of(url),
    }
}

/// Derive the final filename for a URL: its sanitized last path segment
/// (query string stripped), or the sanitized whole URL when no segment
/// exists.
pub fn url_to_filename(url: &str) -> (r: String)
    ensures
        r@ == spec_url_to_filename(url@),
{
    let len = url.unicode_len();
    let mut q: usize = 0;
    while q < len && url.get_char(q) != '?'
        invariant
            q <= len,
            len == url@.len(),
            forall|j: int| 0 <= j < q ==> url@[j] != '?',
        decreases len - q,
    {
        q = q + 1;
    }
    proof {
        url@.index_of_first_ensures('?');
        if q < len {
            assert(url@[q as int] == '?');
            assert(url@.contains('?'));
        } else {
            if url@.contains('?') {
                let i = choose|i: int| 0 <= i < url@.len() && url@[i] == '?';
                assert(url@[i] != '?');
            }
        }
        assert(query_cut(url@) == q as int);
    }
    let cut = q;
    let mut k: usize = cut;
    while k > 0 && url.get_char(k - 1) != '/'
        invariant
            k <= cut,
            cut <= len,
            len == url@.len(),
            forall|j: int| k <= j < cut ==> url@[j] != '/',
        decreases k,
    {
        k = k - 1;
    }
    let ghost prefix = url@.subrange(0, cut as int);
    proof {
        prefix.index_of_last_ensures('/');
        assert(forall|j: int| 0 <= j < cut ==> prefix[j] == url@[j]);
        if k > 0 {
            assert(url@[k - 1] == '/');
            assert(prefix[k - 1] == '/');
            assert(prefix.contains('/'));
            let i = prefix.index_of_last('/').unwrap();
            assert(i >= k - 1);
            assert(i <= k - 1) by {
                if i > k - 1 {
                    assert(url@[i] != '/');
                }
            }
            assert(prefix.index_of_last('/') == Some(k - 1 as int));
        } else {
            if prefix.contains('/') {
                let i = choose|i: int| 0 <= i < prefix.len() && prefix[i] == '/';
                assert(url@[i] != '/');
            }
            assert(prefix.index_of_last('/') is None);
        }
    }
    if k > 0 && k < cut {
        let seg = url.substring_char(k, cut);
        let r = sanitize_name(seg);
        proof {
            assert(last_segment(url@) == Some(url@.subrange(k as int, cut as int)));
        }
        r
    } else {
        let r = sanitize_name(url);
        proof {
            assert(last_segment(url@) is None);
        }
        r
    }
}

} // verus!
