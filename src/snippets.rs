//! Snippet records and the computations behind the snippet listing
//! endpoints: the page window, the listing filters, the page count, and the
//! comma-separated id list of a batch request.
use vstd::prelude::*;
use vstd::string::*;
use crate::claims::{parse_uuid, uuid_parse_of};

verus! {

pub struct CreateSnippetRequest {
    pub title: String,
    pub language: String,
}

pub struct UpdateSnippetRequest {
    pub title: String,
    pub description: String,
    pub code: String,
    pub language: String,
    pub tags: Vec<String>,
}

/// A snippet with its star count and tag names.
pub struct SnippetData {
    pub id: u128,
    pub title: String,
    pub description: Option<String>,
    pub code: Option<String>,
    pub language: String,
    pub stars: i64,
    pub tags: Vec<String>,
}

/// A snippet without its stars and tags.
pub struct SnippetCore {
    pub id: u128,
    pub title: String,
    pub description: Option<String>,
    pub code: Option<String>,
    pub language: String,
}

/// A stored snippet. Timestamps are Unix seconds.
pub struct Snippet {
    pub id: u128,
    pub owner_id: u128,
    pub title: String,
    pub description: Option<String>,
    pub code: Option<String>,
    pub language: String,
    pub created_at: i64,
    pub updated_at: i64,
}

pub struct Tag {
    pub id: u128,
    pub name: String,
}

pub struct SnippetTag {
    pub snippet_id: u128,
    pub tag_id: u128,
}

pub struct SnippetStar {
    pub user_id: u128,
    pub snippet_id: u128,
    pub starred_at: i64,
}

/// Query of a listing page.
pub struct PageParams {
    pub language: Option<String>,
    pub title: Option<String>,
    pub page: Option<u32>,
    pub limit: Option<u32>,
}

/// One page of a listing.
pub struct PageResponse {
    pub total_records: i64,
    pub total_pages: u32,
    pub current_page: u32,
    pub records: Vec<SnippetData>,
}

/// Query of a batch request: UUIDs separated by commas.
pub struct IdsParams {
    pub ids: String,
}

// ---------------------------------------------------------------------------
// Paging

pub const DEFAULT_PAGE_SIZE: u32 = 12;

pub const MAX_PAGE_SIZE: u32 = 100;

/// Which rows a listing page covers.
#[derive(Clone, Copy, Debug, PartialEq, Eq, Structural)]
pub struct PageWindow {
    /// 1-based page number.
    pub current_page: u32,
    /// Rows per page, between 1 and 100.
    pub per_page: u32,
    /// Rows skipped before the page.
    pub offset: u64,
}

/// The page asked for (1 when absent or 0), the page size asked for (12
/// when absent) brought into 1..=100, and the rows before that page.
pub open spec fn window_of(page: Option<u32>, limit: Option<u32>) -> PageWindow {
    let p: u32 = match page {
        Some(p) => if p >= 1 {
            p
        } else {
            1
        },
        None => 1,
    };
    let l: u32 = match limit {
        Some(l) => if l < 1 {
            1
        } else if l > MAX_PAGE_SIZE {
            MAX_PAGE_SIZE
        } else {
            l
        },
        None => DEFAULT_PAGE_SIZE,
    };
    PageWindow { current_page: p, per_page: l, offset: ((p - 1) * l) as u64 }
}

pub fn page_window(page: Option<u32>, limit: Option<u32>) -> (r: PageWindow)
    ensures
        r == window_of(page, limit),
        1 <= r.per_page <= MAX_PAGE_SIZE,
        r.current_page >= 1,
{
    let current_page: u32 = match page {
        Some(p) => if p >= 1 {
            p
        } else {
            1
        },
        None => 1,
    };
    let per_page: u32 = match limit {
        Some(l) => if l < 1 {
            1
        } else if l > MAX_PAGE_SIZE {
            MAX_PAGE_SIZE
        } else {
            l
        },
        None => DEFAULT_PAGE_SIZE,
    };
    assert((current_page - 1) * per_page <= 0xffff_ffff * 100) by (nonlinear_arith)
        requires
            1 <= current_page <= 0xffff_ffff,
            1 <= per_page <= 100,
    ;
    let offset: u64 = (current_page as u64 - 1) * per_page as u64;
    PageWindow { current_page, per_page, offset }
}

/// The number of pages that `total_records` rows fill at `per_page` rows
/// a page: the ceiling of the quotient, none for no rows, and at most
/// `u32::MAX`.
pub open spec fn pages_for(total_records: i64, per_page: u32) -> u32 {
    if total_records <= 0 {
        0
    } else {
        let n = (total_records + per_page - 1) / (per_page as int);
        if n > u32::MAX {
            u32::MAX
        } else {
            n as u32
        }
    }
}

pub fn total_pages(total_records: i64, per_page: u32) -> (r: u32)
    requires
        per_page >= 1,
    ensures
        r == pages_for(total_records, per_page),
{
    if total_records <= 0 {
        return 0;
    }
    let t = total_records as u64;
    let p = per_page as u64;
    let n = t / p + if t % p == 0 {
        0
    } else {
        1
    };
    assert(n == (total_records + per_page - 1) / (per_page as int)) by (nonlinear_arith)
        requires
            t == total_records,
            t > 0,
            p == per_page,
            p >= 1,
            n == t / p + if t % p == 0 {
                0int
            } else {
                1int
            },
    ;
    if n > u32::MAX as u64 {
        u32::MAX
    } else {
        n as u32
    }
}

/// A condition of a listing query: the SQL that introduces it and the
/// value bound to it.
pub struct FilterClause {
    pub sql: &'static str,
    pub bind: String,
}

/// The `ILIKE` pattern of a title search: the text anywhere in the title.
pub open spec fn title_pattern(t: Seq<char>) -> Seq<char> {
    "%"@ + t + "%"@
}

/// The listing's conditions: a non-empty language matched exactly, then a
/// title matched anywhere, case-insensitively; the first opens the `WHERE`.
pub fn listing_filters(params: &PageParams) -> (r: Vec<FilterClause>)
    ensures
        ({
            let lang = match params.language {
                Some(l) => l@.len() > 0,
                None => false,
            };
            let n: int = (if lang { 1int } else { 0int }) + (if params.title is Some { 1int } else { 0int });
            &&& r@.len() == n
            &&& lang ==> r@[0].sql == " WHERE language = " && r@[0].bind@ == params.language->0@
            &&& params.title is Some ==> r@[n - 1].sql == (if lang {
                " AND title ILIKE "
            } else {
                " WHERE title ILIKE "
            }) && r@[n - 1].bind@ == title_pattern(params.title->0@)
        }),
{
    let mut r: Vec<FilterClause> = Vec::new();
    let mut has_where = false;
    match &params.language {
        Some(lang) => {
            if lang.as_str().unicode_len() > 0 {
                r.push(FilterClause { sql: " WHERE language = ", bind: lang.clone() });
                has_where = true;
            }
        },
        None => {},
    }
    match &params.title {
        Some(t) => {
            let mut pattern = String::from_str("%");
            pattern.append(t.as_str());
            pattern.append("%");
            let sql = if has_where {
                " AND title ILIKE "
            } else {
                " WHERE title ILIKE "
            };
            r.push(FilterClause { sql, bind: pattern });
        },
        None => {},
    }
    r
}

// ---------------------------------------------------------------------------
// Batch id list

/// The pieces of a text between commas, as `str::split(',')` yields them
/// (an empty text is one empty piece).
pub open spec fn comma_pieces(s: Seq<char>) -> Seq<Seq<char>>
    decreases s.len(),
{
    if s.len() == 0 {
        seq![Seq::<char>::empty()]
    } else if s.last() == ',' {
        comma_pieces(s.drop_last()).push(Seq::<char>::empty())
    } else {
        let p = comma_pieces(s.drop_last());
        p.update(p.len() - 1, p.last().push(s.last()))
    }
}

/// The UUIDs among the pieces, in order; pieces that are not UUIDs are
/// skipped.
pub open spec fn uuids_among(pieces: Seq<Seq<char>>) -> Seq<u128>
    decreases pieces.len(),
{
    if pieces.len() == 0 {
        Seq::empty()
    } else {
        let front = uuids_among(pieces.drop_last());
        match uuid_parse_of(pieces.last()) {
            Some(x) => front.push(x),
            None => front,
        }
    }
}

proof fn lemma_comma_pieces_nonempty(s: Seq<char>)
    ensures
        comma_pieces(s).len() >= 1,
    decreases s.len(),
{
    if s.len() > 0 {
        lemma_comma_pieces_nonempty(s.drop_last());
    }
}

/// The UUIDs of a batch request's id list, in order, skipping pieces that
/// are not UUIDs.
pub fn parse_id_list(ids: &str) -> (r: Vec<u128>)
    ensures
        r@ == uuids_among(comma_pieces(ids@)),
{
    let n = ids.unicode_len();
    let mut r: Vec<u128> = Vec::new();
    let mut start: usize = 0;
    let mut i: usize = 0;
    while i < n
        invariant
            n == ids@.len(),
            start <= i <= n,
            comma_pieces(ids@.subrange(0, i as int)).len() >= 1,
            comma_pieces(ids@.subrange(0, i as int)).last() == ids@.subrange(start as int, i as int),
            r@ == uuids_among(comma_pieces(ids@.subrange(0, i as int)).drop_last()),
        decreases n - i,
    {
        let ghost before = ids@.subrange(0, i as int);
        let ghost after = ids@.subrange(0, i + 1);
        proof {
            assert(after.drop_last() =~= before);
            assert(after.last() == ids@[i as int]);
            lemma_comma_pieces_nonempty(before);
        }
        if ids.get_char(i) == ',' {
            let piece = ids.substring_char(start, i);
            if let Some(x) = parse_uuid(piece) {
                r.push(x);
            }
            proof {
                let pb = comma_pieces(before);
                assert(comma_pieces(after).drop_last() =~= pb);
                assert(pb.drop_last().push(pb.last()) =~= pb);
                assert(comma_pieces(after).last() =~= ids@.subrange(i + 1, i + 1));
            }
            start = i + 1;
        } else {
            proof {
                let pb = comma_pieces(before);
                assert(comma_pieces(after).drop_last() =~= pb.drop_last());
                assert(comma_pieces(after).last() =~= ids@.subrange(start as int, i + 1));
            }
        }
        i = i + 1;
    }
    let piece = ids.substring_char(start, n);
    if let Some(x) = parse_uuid(piece) {
        r.push(x);
    }
    proof {
        let ps = comma_pieces(ids@);
        assert(ids@.subrange(0, n as int) =~= ids@);
        assert(ps.drop_last().push(ps.last()) =~= ps);
    }
    r
}

} // verus!
