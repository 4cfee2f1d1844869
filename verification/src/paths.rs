//! Path segments of repository-scoped endpoints and the pagination query.
use vstd::prelude::*;
use crate::error::ClientError;
use crate::text::{chars_of, push_char};

verus! {

/// The pieces of `s` between occurrences of `sep`, as `str::split` yields
/// them: `k` separators give `k + 1` pieces, some of them possibly empty.
pub open spec fn split_spec(s: Seq<char>, sep: char) -> Seq<Seq<char>>
    decreases s.len(),
{
    if s.len() == 0 {
        seq![Seq::empty()]
    } else {
        let prev = split_spec(s.drop_last(), sep);
        if s.last() == sep {
            prev.push(Seq::empty())
        } else {
            prev.update(prev.len() - 1, prev.last().push(s.last()))
        }
    }
}

/// The non-empty members of `parts`, in order.
pub open spec fn non_empty(parts: Seq<Seq<char>>) -> Seq<Seq<char>>
    decreases parts.len(),
{
    if parts.len() == 0 {
        Seq::empty()
    } else if parts.last().len() > 0 {
        non_empty(parts.drop_last()).push(parts.last())
    } else {
        non_empty(parts.drop_last())
    }
}

/// The path segments of a repository slug: its non-empty `/`-separated parts.
pub open spec fn slug_parts(slug: Seq<char>) -> Seq<Seq<char>> {
    non_empty(split_spec(slug, '/'))
}

/// The characters of each string in `v`.
pub open spec fn strings_view(v: Seq<String>) -> Seq<Seq<char>> {
    v.map_values(|s: String| s@)
}

/// What `slug_segments` gives for `slug`: its parts, or an error when there
/// are fewer than two.
pub open spec fn slug_segments_spec(slug: Seq<char>) -> Result<Seq<Seq<char>>, ()> {
    if slug_parts(slug).len() >= 2 {
        Ok(slug_parts(slug))
    } else {
        Err(())
    }
}

proof fn lemma_split_nonempty(s: Seq<char>, sep: char)
    ensures
        split_spec(s, sep).len() >= 1,
    decreases s.len(),
{
    if s.len() > 0 {
        lemma_split_nonempty(s.drop_last(), sep);
    }
}

proof fn lemma_non_empty_push(parts: Seq<Seq<char>>, p: Seq<char>)
    ensures
        non_empty(parts.push(p)) == if p.len() > 0 {
            non_empty(parts).push(p)
        } else {
            non_empty(parts)
        },
{
    assert(parts.push(p).drop_last() =~= parts);
}


proof fn lemma_split_pieces_free_of_sep(s: Seq<char>, sep: char)
    ensures
        forall|i: int|
            0 <= i < split_spec(s, sep).len() ==> !(#[trigger] split_spec(s, sep)[i]).contains(
                sep,
            ),
    decreases s.len(),
{
    if s.len() > 0 {
        let prev = split_spec(s.drop_last(), sep);
        lemma_split_pieces_free_of_sep(s.drop_last(), sep);
        lemma_split_nonempty(s.drop_last(), sep);
        let cur = split_spec(s, sep);
        assert forall|i: int| 0 <= i < cur.len() implies !(#[trigger] cur[i]).contains(sep) by {
            if s.last() == sep {
                if i < prev.len() {
                    assert(cur[i] == prev[i]);
                } else {
                    assert(cur[i] =~= Seq::<char>::empty());
                }
            } else if i < prev.len() - 1 {
                assert(cur[i] == prev[i]);
            } else {
                let p = prev.last().push(s.last());
                assert(cur[i] == p);
                if p.contains(sep) {
                    let k = choose|k: int| 0 <= k < p.len() && p[k] == sep;
                    assert(prev.last()[k] == sep);
                }
            }
        }
    }
}

proof fn lemma_non_empty_members(parts: Seq<Seq<char>>)
    ensures
        forall|i: int|
            0 <= i < non_empty(parts).len() ==> (#[trigger] non_empty(parts)[i]).len() > 0
                && parts.contains(non_empty(parts)[i]),
    decreases parts.len(),
{
    if parts.len() > 0 {
        let rest = parts.drop_last();
        lemma_non_empty_members(rest);
        let ne = non_empty(parts);
        assert forall|i: int| 0 <= i < ne.len() implies (#[trigger] ne[i]).len() > 0
            && parts.contains(ne[i]) by {
            if parts.last().len() > 0 && i == ne.len() - 1 {
                assert(ne[i] == parts.last());
                assert(parts[parts.len() - 1] == parts.last());
            } else {
                assert(ne[i] == non_empty(rest)[i]);
                let j = choose|j: int| 0 <= j < rest.len() && rest[j] == ne[i];
                assert(parts[j] == rest[j]);
            }
        }
    }
}

/// Each path segment of a slug is non-empty and holds no `/`.
pub proof fn lemma_slug_parts_well_formed(slug: Seq<char>)
    ensures
        forall|i: int|
            0 <= i < slug_parts(slug).len() ==> (#[trigger] slug_parts(slug)[i]).len() > 0
                && !slug_parts(slug)[i].contains('/'),
{
    lemma_split_pieces_free_of_sep(slug, '/');
    lemma_non_empty_members(split_spec(slug, '/'));
    let sp = split_spec(slug, '/');
    assert forall|i: int| 0 <= i < slug_parts(slug).len() implies (#[trigger] slug_parts(
        slug,
    )[i]).len() > 0 && !slug_parts(slug)[i].contains('/') by {
        let j = choose|j: int| 0 <= j < sp.len() && sp[j] == slug_parts(slug)[i];
        assert(!sp[j].contains('/'));
    }
}

/// The non-empty parts of `slug` between `/` characters.
fn split_slug(slug: &str) -> (r: Vec<String>)
    ensures
        strings_view(r@) == slug_parts(slug@),
{
    let v = chars_of(slug);
    let mut parts: Vec<String> = Vec::new();
    let mut cur = String::new();
    let mut i: usize = 0;
    proof {
        assert(v@.take(0) =~= Seq::<char>::empty());
    }
    while i < v.len()
        invariant
            i <= v@.len(),
            v@ == slug@,
            split_spec(v@.take(i as int), '/').len() >= 1,
            cur@ == split_spec(v@.take(i as int), '/').last(),
            strings_view(parts@) == non_empty(split_spec(v@.take(i as int), '/').drop_last()),
        decreases v@.len() - i,
    {
        let c = v[i];
        let ghost pre = v@.take(i as int);
        let ghost next = v@.take(i + 1);
        proof {
            assert(next.drop_last() =~= pre);
            assert(next.last() == c);
            lemma_split_nonempty(pre, '/');
        }
        if c == '/' {
            if cur.unicode_len() > 0 {
                let ghost old_parts = parts@;
                parts.push(cur);
                proof {
                    assert(strings_view(parts@) =~= strings_view(old_parts).push(
                        split_spec(pre, '/').last(),
                    ));
                }
            }
            proof {
                let sp = split_spec(pre, '/');
                assert(split_spec(next, '/') == sp.push(Seq::empty()));
                assert(sp.push(Seq::<char>::empty()).drop_last() =~= sp);
                assert(sp =~= sp.drop_last().push(sp.last()));
                lemma_non_empty_push(sp.drop_last(), sp.last());
            }
            cur = String::new();
        } else {
            push_char(&mut cur, c);
            proof {
                let sp = split_spec(pre, '/');
                let sn = split_spec(next, '/');
                assert(sn == sp.update(sp.len() - 1, sp.last().push(c)));
                assert(sn.drop_last() =~= sp.drop_last());
            }
        }
        i = i + 1;
    }
    proof {
        assert(v@.take(v@.len() as int) =~= v@);
        let sp = split_spec(v@, '/');
        assert(sp =~= sp.drop_last().push(sp.last()));
        lemma_non_empty_push(sp.drop_last(), sp.last());
    }
    if cur.unicode_len() > 0 {
        let ghost old_parts = parts@;
        parts.push(cur);
        proof {
            assert(strings_view(parts@) =~= strings_view(old_parts).push(
                split_spec(slug@, '/').last(),
            ));
        }
    }
    parts
}

/// The path segments that a repository slug such as `owner/repo` names.
/// Empty parts (from leading, trailing or doubled `/`) are dropped; fewer
/// than two parts is an error.
pub fn slug_segments(slug: &str) -> (r: Result<Vec<String>, ClientError>)
    ensures
        match slug_segments_spec(slug@) {
            Ok(parts) => r matches Ok(v) && strings_view(v@) == parts,
            Err(_) => r matches Err(ClientError::InvalidSlug(s)) && s@ == slug@,
        },
{
    let segments = split_slug(slug);
    if segments.len() < 2 {
        return Err(ClientError::InvalidSlug(String::from_str(slug)));
    }
    Ok(segments)
}

/// The path segments of a repository.
pub fn repo_segments(repo: &str) -> (r: Result<Vec<String>, ClientError>)
    ensures
        match slug_segments_spec(repo@) {
            Ok(parts) => r matches Ok(v) && strings_view(v@) == parts,
            Err(_) => r matches Err(ClientError::InvalidSlug(s)) && s@ == repo@,
        },
{
    slug_segments(repo)
}

/// The path segments under which a repository's resources live:
/// the repository's own, followed by `-`.
pub fn repo_resource_segments(repo: &str) -> (r: Result<Vec<String>, ClientError>)
    ensures
        match slug_segments_spec(repo@) {
            Ok(parts) => r matches Ok(v) && strings_view(v@) == parts.push("-"@),
            Err(_) => r matches Err(ClientError::InvalidSlug(s)) && s@ == repo@,
        },
{
    let mut segments = repo_segments(repo)?;
    let ghost before = segments@;
    segments.push(String::from_str("-"));
    proof {
        assert(strings_view(segments@) =~= strings_view(before).push("-"@));
    }
    Ok(segments)
}

/// A query parameter of a request.
#[derive(Debug, Clone, Copy, PartialEq, Eq)]
pub struct QueryParam {
    pub name: &'static str,
    pub value: u32,
}

/// The query that asks for one page of a list: `page` and `page_size`,
/// each present only when given, in that order.
pub open spec fn pagination_spec(page: Option<u32>, page_size: Option<u32>) -> Seq<(Seq<char>, u32)> {
    let first = match page {
        Some(p) => seq![("page"@, p)],
        None => Seq::empty(),
    };
    match page_size {
        Some(ps) => first.push(("page_size"@, ps)),
        None => first,
    }
}

/// The name and value of each query parameter.
pub open spec fn params_view(q: Seq<QueryParam>) -> Seq<(Seq<char>, u32)> {
    q.map_values(|p: QueryParam| (p.name@, p.value))
}

/// The query parameters of a paginated list request.
pub fn pagination_params(page: Option<u32>, page_size: Option<u32>) -> (r: Vec<QueryParam>)
    ensures
        params_view(r@) == pagination_spec(page, page_size),
{
    let mut params: Vec<QueryParam> = Vec::new();
    if let Some(p) = page {
        params.push(QueryParam { name: "page", value: p });
    }
    let ghost first = params@;
    if let Some(ps) = page_size {
        params.push(QueryParam { name: "page_size", value: ps });
    }
    proof {
        assert(params_view(first) =~= match page {
            Some(p) => seq![("page"@, p)],
            None => Seq::<(Seq<char>, u32)>::empty(),
        });
        assert(params_view(params@) =~= pagination_spec(page, page_size));
    }
    params
}

} // verus!
