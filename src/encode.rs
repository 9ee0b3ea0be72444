use vstd::prelude::*;
use crate::headers::{row_idle, HeaderRow, HttpHeaders};
use crate::method::is_token;
use reqwest::header::{HeaderMap, HeaderName, HeaderValue};

verus! {

#[verifier::external_type_specification]
#[verifier::external_body]
pub struct ExHeaderName(reqwest::header::HeaderName);

#[verifier::external_type_specification]
#[verifier::external_body]
pub struct ExHeaderValue(reqwest::header::HeaderValue);

#[verifier::external_type_specification]
#[verifier::external_body]
#[verifier::reject_recursive_types(T)]
pub struct ExHeaderMap<T>(reqwest::header::HeaderMap<T>);

/// The header name that reqwest builds from a valid key, given in lower case.
pub uninterp spec fn header_name_of(lower_key: Seq<char>) -> HeaderName;

/// A character with ASCII upper case letters mapped to lower case.
pub open spec fn lower_char(c: char) -> char {
    if 'A' <= c && c <= 'Z' {
        ((c as u32) + 32) as char
    } else {
        c
    }
}

/// A text with its ASCII upper case letters mapped to lower case.
pub open spec fn lower_ascii(s: Seq<char>) -> Seq<char> {
    s.map_values(|c: char| lower_char(c))
}

/// The header value that reqwest builds from a valid value text.
pub uninterp spec fn header_value_of(value: Seq<char>) -> HeaderValue;

/// For each header name, its values in order.
pub type HeaderEntries = Map<HeaderName, Seq<HeaderValue>>;

/// What a header map holds.
pub uninterp spec fn header_map_entries(m: HeaderMap) -> HeaderEntries;

/// Header names are tokens of at most 65535 bytes.
pub open spec fn valid_header_name(key: Seq<char>) -> bool {
    is_token(key) && key.len() <= 65535
}

/// Header values hold no control characters other than horizontal tab.
pub open spec fn valid_header_char(c: char) -> bool {
    (c as u32 >= 32 && c as u32 != 127) || c == '\t'
}

pub open spec fn valid_header_value(value: Seq<char>) -> bool {
    forall|i: int| 0 <= i < value.len() ==> valid_header_char(#[trigger] value[i])
}

/// A row can be sent: it is idle (and skipped), or its key and value are valid.
pub open spec fn row_valid(r: HeaderRow) -> bool {
    row_idle(r) || (valid_header_name(r.key) && valid_header_value(r.value))
}

pub open spec fn all_rows_valid(rows: Seq<HeaderRow>) -> bool {
    forall|i: int| 0 <= i < rows.len() ==> row_valid(#[trigger] rows[i])
}

/// `key` is the key of the first row that cannot be sent.
pub open spec fn first_invalid_key(rows: Seq<HeaderRow>, key: Seq<char>) -> bool {
    exists|i: int|
        0 <= i < rows.len() && !row_valid(#[trigger] rows[i]) && rows[i].key == key && all_rows_valid(
            rows.take(i),
        )
}

/// The (name, value) pairs of the rows that are not idle, in row order.
pub open spec fn active_pairs(rows: Seq<HeaderRow>) -> Seq<(HeaderName, HeaderValue)>
    decreases rows.len(),
{
    if rows.len() == 0 {
        Seq::empty()
    } else {
        let before = active_pairs(rows.drop_last());
        let r = rows.last();
        if row_idle(r) {
            before
        } else {
            before.push((header_name_of(lower_ascii(r.key)), header_value_of(r.value)))
        }
    }
}

/// The map after inserting each pair in turn; a later pair replaces every
/// earlier value of its name.
pub open spec fn insert_pairs(pairs: Seq<(HeaderName, HeaderValue)>) -> HeaderEntries
    decreases pairs.len(),
{
    if pairs.len() == 0 {
        Map::empty()
    } else {
        let p = pairs.last();
        insert_pairs(pairs.drop_last()).insert(p.0, seq![p.1])
    }
}

pub open spec fn content_type_name() -> HeaderName {
    header_name_of("content-type"@)
}

pub open spec fn json_value() -> HeaderValue {
    header_value_of("application/json"@)
}

/// Fills in `content-type: application/json` where the rows set no content type.
pub open spec fn with_default_content_type(m: HeaderEntries) -> HeaderEntries {
    if m.contains_key(content_type_name()) {
        m
    } else {
        m.insert(content_type_name(), seq![json_value()])
    }
}

/// The headers that a request with these rows carries.
pub open spec fn request_header_entries(rows: Seq<HeaderRow>) -> HeaderEntries {
    with_default_content_type(insert_pairs(active_pairs(rows)))
}

/// Why a header collection cannot be turned into a request's headers.
#[derive(Debug, Clone, PartialEq, Eq)]
pub enum EncodeError {
    /// The row with this key has an invalid name or value.
    InvalidHeader(String),
    /// The header map refused to grow any further.
    TooManyHeaders,
}

/// Relies on `http::HeaderName::from_bytes`: it accepts exactly the tokens of
/// 1 to 65535 bytes, and the name it builds depends on the key lowercased
/// alone (its `HEADER_CHARS` table lowercases ASCII letters).
#[verifier::external_body]
fn parse_header_name(key: &str) -> (r: Option<HeaderName>)
    ensures
        r is Some <==> valid_header_name(key@),
        r matches Some(n) ==> n == header_name_of(lower_ascii(key@)),
{
    HeaderName::from_bytes(key.as_bytes()).ok()
}

/// Relies on `http::HeaderValue::from_str`: it accepts exactly the texts whose
/// bytes are all at least 32 and not 127, or tabs, and the value it builds
/// depends on the text alone.
#[verifier::external_body]
fn parse_header_value(value: &str) -> (r: Option<HeaderValue>)
    ensures
        r is Some <==> valid_header_value(value@),
        r matches Some(v) ==> v == header_value_of(value@),
{
    HeaderValue::from_str(value).ok()
}

/// Relies on `http::HeaderMap::new`: the map starts empty.
#[verifier::external_body]
fn new_header_map() -> (r: HeaderMap)
    ensures
        header_map_entries(r) == HeaderEntries::empty(),
{
    HeaderMap::new()
}

/// Relies on `http::HeaderMap::try_insert`: on success the name's values are
/// replaced by the one value; on failure the map is unchanged. It fails only
/// when the table would grow past `MAX_SIZE` (2^15 slots), which needs at
/// least 6554 distinct names, so a map with fewer than 4096 names always
/// takes one more.
#[verifier::external_body]
fn header_map_try_insert(m: &mut HeaderMap, name: HeaderName, value: HeaderValue) -> (r: bool)
    ensures
        r ==> header_map_entries(*final(m)) == header_map_entries(*old(m)).insert(name, seq![value]),
        !r ==> header_map_entries(*final(m)) == header_map_entries(*old(m)),
        header_map_entries(*old(m)).dom().len() < 4096 ==> r,
{
    m.try_insert(name, value).is_ok()
}

/// Relies on `http::HeaderMap::contains_key`: whether the name has a value.
#[verifier::external_body]
fn header_map_contains(m: &HeaderMap, name: &HeaderName) -> (r: bool)
    ensures
        r == header_map_entries(*m).contains_key(*name),
{
    m.contains_key(name)
}

/// Checks every row that is not idle and builds its header name and value,
/// stopping at the first row that cannot be sent.
fn parse_rows(headers: &HttpHeaders) -> (r: Result<Vec<(HeaderName, HeaderValue)>, EncodeError>)
    ensures
        r is Ok <==> all_rows_valid(headers@),
        r matches Ok(pairs) ==> pairs@ == active_pairs(headers@),
        r matches Err(e) ==> (e matches EncodeError::InvalidHeader(k) && first_invalid_key(
            headers@,
            k@,
        )),
{
    let n = headers.len();
    let mut pairs: Vec<(HeaderName, HeaderValue)> = Vec::new();
    let mut i: usize = 0;
    while i < n
        invariant
            n == headers@.len(),
            i <= n,
            all_rows_valid(headers@.take(i as int)),
            pairs@ == active_pairs(headers@.take(i as int)),
        decreases n - i,
    {
        let e = headers.get(i).unwrap();
        let ghost row = headers@[i as int];
        assert(headers@.take(i + 1).drop_last() =~= headers@.take(i as int));
        assert(headers@.take(i + 1).last() == row);
        if !e.is_idle() {
            let name = parse_header_name(e.key_str());
            let value = parse_header_value(e.value_str());
            match (name, value) {
                (Some(name), Some(value)) => {
                    pairs.push((name, value));
                },
                _ => {
                    return Err(EncodeError::InvalidHeader(e.key()));
                },
            }
        }
        assert forall|j: int| 0 <= j < i + 1 implies row_valid(#[trigger] headers@.take(i + 1)[j]) by {
            if j < i {
                assert(headers@.take(i + 1)[j] == headers@.take(i as int)[j]);
            }
        }
        i = i + 1;
    }
    assert(headers@.take(n as int) =~= headers@);
    Ok(pairs)
}

/// Turns header rows into the header map of a request. Idle rows are
/// skipped; the others are applied in order, a later row replacing an
/// earlier one with the same name. Where the rows set no content type,
/// `content-type: application/json` is added; a content type that the rows
/// set is kept as it is. A row with an invalid name or value fails the whole
/// encoding with its key, before anything is built.
pub fn encode_headers(headers: &HttpHeaders) -> (r: Result<HeaderMap, EncodeError>)
    ensures
        r matches Ok(m) ==> header_map_entries(m) == request_header_entries(headers@),
        (r matches Err(EncodeError::InvalidHeader(_))) <==> !all_rows_valid(headers@),
        r matches Err(EncodeError::InvalidHeader(k)) ==> first_invalid_key(headers@, k@),
        all_rows_valid(headers@) && headers@.len() < 4096 ==> r is Ok,
{
    let pairs = match parse_rows(headers) {
        Ok(pairs) => pairs,
        Err(e) => {
            return Err(e);
        },
    };
    let ghost all = pairs@;
    proof {
        lemma_active_pairs_len(headers@);
    }
    let mut pairs = pairs;
    let mut m = new_header_map();
    let n = pairs.len();
    let mut i: usize = 0;
    while i < n
        invariant
            n == all.len(),
            i <= n,
            all == active_pairs(headers@),
            all_rows_valid(headers@),
            pairs@ == all.skip(i as int),
            header_map_entries(m) == insert_pairs(all.take(i as int)),
            n <= headers@.len(),
        decreases n - i,
    {
        proof {
            lemma_insert_pairs_size(all.take(i as int));
        }
        let (name, value) = pairs.remove(0);
        assert(all.take(i + 1).drop_last() =~= all.take(i as int));
        assert(all.take(i + 1).last() == all[i as int]);
        assert(pairs@ =~= all.skip(i + 1));
        if !header_map_try_insert(&mut m, name, value) {
            return Err(EncodeError::TooManyHeaders);
        }
        i = i + 1;
    }
    assert(all.take(n as int) =~= all);
    let ct = parse_header_name("content-type");
    let json = parse_header_value("application/json");
    proof {
        reveal_strlit("content-type");
        reveal_strlit("application/json");
        assert(valid_header_name("content-type"@));
        assert(lower_ascii("content-type"@) =~= "content-type"@);
        assert(valid_header_value("application/json"@));
    }
    proof {
        lemma_insert_pairs_size(all);
    }
    let ct = ct.unwrap();
    let json = json.unwrap();
    if !header_map_contains(&m, &ct) {
        if !header_map_try_insert(&mut m, ct, json) {
            return Err(EncodeError::TooManyHeaders);
        }
    }
    Ok(m)
}

/// There are no more pairs than rows.
proof fn lemma_active_pairs_len(rows: Seq<HeaderRow>)
    ensures
        active_pairs(rows).len() <= rows.len(),
    decreases rows.len(),
{
    if rows.len() > 0 {
        lemma_active_pairs_len(rows.drop_last());
    }
}

/// Inserting pairs names at most as many headers as there are pairs.
proof fn lemma_insert_pairs_size(pairs: Seq<(HeaderName, HeaderValue)>)
    ensures
        insert_pairs(pairs).dom().finite(),
        insert_pairs(pairs).dom().len() <= pairs.len(),
    decreases pairs.len(),
{
    if pairs.len() > 0 {
        lemma_insert_pairs_size(pairs.drop_last());
    }
}

/// Every pair's name is set once the pairs are inserted.
proof fn lemma_insert_pairs_names(pairs: Seq<(HeaderName, HeaderValue)>, i: int)
    requires
        0 <= i < pairs.len(),
    ensures
        insert_pairs(pairs).contains_key(pairs[i].0),
    decreases pairs.len(),
{
    if i < pairs.len() - 1 {
        lemma_insert_pairs_names(pairs.drop_last(), i);
    }
}

/// A row that is not idle lands in the pairs.
proof fn lemma_active_row_paired(rows: Seq<HeaderRow>, i: int)
    requires
        0 <= i < rows.len(),
        !row_idle(rows[i]),
    ensures
        exists|j: int|
            0 <= j < active_pairs(rows).len() && #[trigger] active_pairs(rows)[j].0 == header_name_of(
                lower_ascii(rows[i].key),
            ),
    decreases rows.len(),
{
    let before = rows.drop_last();
    if i < rows.len() - 1 {
        assert(before[i] == rows[i]);
        lemma_active_row_paired(before, i);
        let j = choose|j: int|
            0 <= j < active_pairs(before).len() && #[trigger] active_pairs(before)[j].0
                == header_name_of(lower_ascii(rows[i].key));
        assert(active_pairs(rows)[j] == active_pairs(before)[j]);
    } else {
        let j = active_pairs(before).len() as int;
        assert(active_pairs(rows)[j].0 == header_name_of(lower_ascii(rows[i].key)));
    }
}

/// A row whose key is `Content-Type` in any letter case decides the content
/// type: the default is not added, and a later row with that name wins.
pub proof fn lemma_caller_content_type_kept(rows: Seq<HeaderRow>, i: int)
    requires
        0 <= i < rows.len(),
        lower_ascii(rows[i].key) == "content-type"@,
    ensures
        request_header_entries(rows) == insert_pairs(active_pairs(rows)),
{
    reveal_strlit("content-type");
    assert(lower_ascii(rows[i].key).len() == rows[i].key.len());
    assert(!row_idle(rows[i]));
    lemma_active_row_paired(rows, i);
    let j = choose|j: int|
        0 <= j < active_pairs(rows).len() && #[trigger] active_pairs(rows)[j].0 == header_name_of(
            lower_ascii(rows[i].key),
        );
    lemma_insert_pairs_names(active_pairs(rows), j);
}

/// Rows that are all idle contribute nothing: the request carries only the
/// default content type, and no key of those rows.
pub proof fn lemma_idle_rows_not_sent(rows: Seq<HeaderRow>)
    requires
        forall|i: int| 0 <= i < rows.len() ==> row_idle(#[trigger] rows[i]),
    ensures
        active_pairs(rows) == Seq::<(HeaderName, HeaderValue)>::empty(),
        request_header_entries(rows) == HeaderEntries::empty().insert(
            content_type_name(),
            seq![json_value()],
        ),
        request_header_entries(rows).dom() == set![content_type_name()],
    decreases rows.len(),
{
    if rows.len() > 0 {
        let before = rows.drop_last();
        assert forall|i: int| 0 <= i < before.len() implies row_idle(#[trigger] before[i]) by {
            assert(before[i] == rows[i]);
        }
        lemma_idle_rows_not_sent(before);
        assert(row_idle(rows[rows.len() - 1]));
    }
    assert(insert_pairs(Seq::<(HeaderName, HeaderValue)>::empty()) == HeaderEntries::empty());
    assert(request_header_entries(rows).dom() =~= set![content_type_name()]);
}

} // verus!
