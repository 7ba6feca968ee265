use crate::errors::{DKIMError, Status};
use trust_dns_resolver::error::{ResolveError, ResolveErrorKind};
use trust_dns_resolver::lookup::TxtLookup;
use vstd::prelude::*;

verus! {

#[verifier::external_type_specification]
#[verifier::external_body]
pub struct ExResolveError(ResolveError);

#[verifier::external_type_specification]
#[verifier::external_body]
pub struct ExTxtLookup(TxtLookup);

/// What `String::from_utf8_lossy` makes of a byte string.
pub uninterp spec fn utf8_lossy(b: Seq<u8>) -> Seq<char>;

/// Every byte is below 128.
pub open spec fn is_ascii_bytes(b: Seq<u8>) -> bool {
    forall|i: int| 0 <= i < b.len() ==> #[trigger] b[i] < 128
}

/// The characters whose code points are the given bytes.
pub open spec fn ascii_text(b: Seq<u8>) -> Seq<char> {
    b.map_values(|x: u8| x as char)
}

/// Relies on `String::from_utf8_lossy`: the text depends on the bytes alone, and
/// bytes that are valid UTF-8 (as ASCII bytes are) decode to the characters they
/// encode.
#[verifier::external_body]
fn decode_lossy(b: &[u8]) -> (r: String)
    ensures
        r@ == utf8_lossy(b@),
        is_ascii_bytes(b@) ==> r@ == ascii_text(b@),
{
    String::from_utf8_lossy(b).into_owned()
}

/// Whether a resolver error is of the kind `ResolveErrorKind::NoRecordsFound`.
pub uninterp spec fn no_records_kind(e: ResolveError) -> bool;

/// The character-strings of each TXT record that an answer holds.
pub uninterp spec fn txt_records_of(l: TxtLookup) -> Seq<Seq<Seq<u8>>>;

/// Relies on `ResolveError::kind`: whether the resolver found no records at the name.
#[verifier::external_body]
fn is_no_records_found(err: &ResolveError) -> (r: bool)
    ensures
        r == no_records_kind(*err),
{
    matches!(err.kind(), ResolveErrorKind::NoRecordsFound { .. })
}

/// Relies on `ResolveError`'s `Display`: the resolver's description of the failure.
#[verifier::external_body]
fn resolve_error_text(err: &ResolveError) -> String {
    err.to_string()
}

/// Relies on `TxtLookup::iter` and `TXT::iter`: the character-strings of each TXT
/// record of the answer, records and strings in the order the resolver gave.
#[verifier::external_body]
fn txt_record_data(answer: &TxtLookup) -> (r: Vec<Vec<Vec<u8>>>)
    ensures
        records_views(r@) == txt_records_of(*answer),
{
    answer.iter().map(|txt| txt.iter().map(|data| data.to_vec()).collect()).collect()
}

/// How a resolver query failed, as far as key retrieval cares.
#[derive(Debug, Clone, PartialEq)]
pub enum ResolveFailure {
    /// The name resolved, but holds no record of the type asked for.
    NoRecordsFound,
    /// Any other failure, with the resolver's description of it.
    Other(String),
}

/// The views of a list of byte strings.
pub open spec fn bytes_views(v: Seq<Vec<u8>>) -> Seq<Seq<u8>> {
    v.map_values(|p: Vec<u8>| p@)
}

/// The views of the records of an answer, each a list of character-strings.
pub open spec fn records_views(v: Seq<Vec<Vec<u8>>>) -> Seq<Seq<Seq<u8>>> {
    v.map_values(|r: Vec<Vec<u8>>| bytes_views(r@))
}

/// The text of one TXT record: its character-strings, each decoded
/// permissively, joined in wire order.
pub open spec fn joined_text(pieces: Seq<Seq<u8>>) -> Seq<char> {
    pieces.map_values(|p: Seq<u8>| utf8_lossy(p)).flatten()
}

/// Every character-string of a record is ASCII.
pub open spec fn all_ascii(pieces: Seq<Seq<u8>>) -> bool {
    forall|i: int| 0 <= i < pieces.len() ==> is_ascii_bytes(#[trigger] pieces[i])
}

/// `text` is the text of the record `pieces`: its strings decoded and joined,
/// and for ASCII strings exactly their bytes, concatenated.
pub open spec fn is_record_text(pieces: Seq<Seq<u8>>, text: Seq<char>) -> bool {
    &&& text == joined_text(pieces)
    &&& all_ascii(pieces) ==> text == ascii_text(pieces.flatten())
}

/// `texts` holds the text of each record, one for one and in order.
pub open spec fn record_texts(records: Seq<Seq<Seq<u8>>>, texts: Seq<Seq<char>>) -> bool {
    &&& texts.len() == records.len()
    &&& forall|i: int| 0 <= i < records.len() ==> is_record_text(records[i], #[trigger] texts[i])
}

/// The views of a list of strings.
pub open spec fn strings_views(v: Seq<String>) -> Seq<Seq<char>> {
    v.map_values(|s: String| s@)
}

/// The head of the detail that a failed query leaves in `KeyUnavailable`.
pub open spec fn query_failure_head() -> Seq<char> {
    "failed to query DNS: "@
}

/// `e` is the error that key retrieval reports for the resolver failure `f`.
pub open spec fn is_lookup_error(f: ResolveFailure, e: DKIMError) -> bool {
    match f {
        ResolveFailure::NoRecordsFound => e is NoKeyForSignature,
        ResolveFailure::Other(d) => e matches DKIMError::KeyUnavailable(m) && m@
            == query_failure_head() + d@,
    }
}

/// `e` is one of the errors that key retrieval can report, whatever the resolver said.
pub open spec fn is_retrieval_error(e: DKIMError) -> bool {
    ||| e is NoKeyForSignature
    ||| e matches DKIMError::KeyUnavailable(m) && m@.len() > 0
}

/// Joins the character-strings of one TXT record into its text, decoding each
/// permissively.
pub fn join_character_strings(pieces: &Vec<Vec<u8>>) -> (r: String)
    ensures
        is_record_text(bytes_views(pieces@), r@),
{
    let mut r = String::new();
    let mut i: usize = 0;
    while i < pieces.len()
        invariant
            i <= pieces.len(),
            r@ == joined_text(bytes_views(pieces@).take(i as int)),
            all_ascii(bytes_views(pieces@)) ==> r@ == ascii_text(
                bytes_views(pieces@).take(i as int).flatten(),
            ),
        decreases pieces.len() - i,
    {
        let part = decode_lossy(pieces[i].as_slice());
        r.append(part.as_str());
        proof {
            let lossy = |p: Seq<u8>| utf8_lossy(p);
            let done = bytes_views(pieces@).take(i as int).map_values(lossy);
            assert(bytes_views(pieces@).take(i + 1).map_values(lossy) =~= done.push(part@));
            done.lemma_flatten_push(part@);
            let taken = bytes_views(pieces@).take(i as int);
            assert(bytes_views(pieces@).take(i + 1) =~= taken.push(pieces@[i as int]@));
            taken.lemma_flatten_push(pieces@[i as int]@);
            assert(ascii_text(taken.flatten() + pieces@[i as int]@) =~= ascii_text(taken.flatten())
                + ascii_text(pieces@[i as int]@));
            if all_ascii(bytes_views(pieces@)) {
                assert(is_ascii_bytes(bytes_views(pieces@)[i as int]));
            }
        }
        i += 1;
    }
    proof {
        assert(bytes_views(pieces@).take(pieces@.len() as int) =~= bytes_views(pieces@));
    }
    r
}

/// The text of each TXT record, in the order of the records.
pub fn txt_strings(records: &Vec<Vec<Vec<u8>>>) -> (r: Vec<String>)
    ensures
        record_texts(records_views(records@), strings_views(r@)),
{
    let mut r: Vec<String> = Vec::new();
    let mut i: usize = 0;
    while i < records.len()
        invariant
            i <= records.len(),
            r.len() == i,
            forall|j: int|
                0 <= j < i ==> is_record_text(records_views(records@)[j], #[trigger] r@[j]@),
        decreases records.len() - i,
    {
        let text = join_character_strings(&records[i]);
        r.push(text);
        i += 1;
    }
    r
}

/// The error that key retrieval reports for a failed resolver query: no key
/// where the name holds no TXT record, and otherwise an unavailable key with
/// the resolver's description.
pub fn lookup_error_for(failure: &ResolveFailure) -> (r: DKIMError)
    ensures
        is_lookup_error(*failure, r),
{
    match failure {
        ResolveFailure::NoRecordsFound => DKIMError::NoKeyForSignature,
        ResolveFailure::Other(detail) => {
            let mut m = String::from_str("failed to query DNS: ");
            m.append(detail.as_str());
            DKIMError::KeyUnavailable(m)
        },
    }
}

/// Key retrieval's answer for what the resolver returned: the text of each TXT
/// record in order, no key where there is none, or the mapped failure.
pub fn txt_lookup_result(answer: Result<Vec<Vec<Vec<u8>>>, ResolveFailure>) -> (r: Result<
    Vec<String>,
    DKIMError,
>)
    ensures
        match answer {
            Err(f) => r matches Err(e) && is_lookup_error(f, e),
            Ok(records) => if records.len() == 0 {
                r matches Err(e) && e is NoKeyForSignature
            } else {
                r matches Ok(texts) && record_texts(
                    records_views(records@),
                    strings_views(texts@),
                )
            },
        },
{
    match answer {
        Err(f) => Err(lookup_error_for(&f)),
        Ok(records) => {
            if records.len() == 0 {
                Err(DKIMError::NoKeyForSignature)
            } else {
                Ok(txt_strings(&records))
            }
        },
    }
}

/// Maps a resolver error onto the taxonomy: no key where the resolver found no
/// records, an unavailable key with its description otherwise.
pub fn to_lookup_error(err: ResolveError) -> (r: DKIMError)
    ensures
        is_retrieval_error(r),
        (r is NoKeyForSignature) == no_records_kind(err),
{
    let failure = if is_no_records_found(&err) {
        ResolveFailure::NoRecordsFound
    } else {
        ResolveFailure::Other(resolve_error_text(&err))
    };
    let r = lookup_error_for(&failure);
    proof {
        reveal_strlit("failed to query DNS: ");
    }
    r
}

/// Key retrieval's answer for a TXT query's outcome: the text of each record,
/// in the resolver's order, or an error of the retrieval kinds.
pub fn lookup_txt_answer(answer: Result<TxtLookup, ResolveError>) -> (r: Result<
    Vec<String>,
    DKIMError,
>)
    ensures
        r matches Ok(texts) ==> texts.len() > 0,
        r matches Err(e) ==> is_retrieval_error(e),
        answer matches Err(err) ==> r matches Err(e) && (e is NoKeyForSignature) == no_records_kind(
            err,
        ),
        answer matches Ok(l) ==> if txt_records_of(l).len() == 0 {
            r matches Err(e) && e is NoKeyForSignature
        } else {
            r matches Ok(texts) && record_texts(txt_records_of(l), strings_views(texts@))
        },
{
    match answer {
        Err(err) => Err(to_lookup_error(err)),
        Ok(lookup) => {
            let records = txt_record_data(&lookup);
            txt_lookup_result(Ok(records))
        },
    }
}

/// A resolver that finds no records at the name yields a missing key, a
/// permanent failure; any other resolver failure yields an unavailable key with
/// a non-empty description, a temporary failure.
pub proof fn lemma_lookup_error_status(f: ResolveFailure, e: DKIMError)
    requires
        is_lookup_error(f, e),
    ensures
        f is NoRecordsFound ==> e is NoKeyForSignature && e.spec_status() == Status::Permfail,
        f is Other ==> e is KeyUnavailable && e.payload().len() > 0 && e.spec_status()
            == Status::Tempfail,
{
    reveal_strlit("failed to query DNS: ");
}

/// A TXT record split into several character-strings comes back as one text:
/// the decoded strings concatenated in wire order, which for ASCII strings is
/// exactly their bytes concatenated.
pub proof fn lemma_split_record_is_joined(record: Seq<Seq<u8>>, texts: Seq<Seq<char>>)
    requires
        record_texts(seq![record], texts),
    ensures
        texts.len() == 1,
        texts[0] == record.map_values(|p: Seq<u8>| utf8_lossy(p)).flatten(),
        all_ascii(record) ==> texts[0] == ascii_text(record.flatten()),
{
    assert(seq![record][0] == record);
}

/// Two TXT records at one name come back as two texts, in the resolver's
/// order, neither merged nor dropped.
pub proof fn lemma_records_keep_order(
    first: Seq<Seq<u8>>,
    second: Seq<Seq<u8>>,
    texts: Seq<Seq<char>>,
)
    requires
        record_texts(seq![first, second], texts),
    ensures
        texts.len() == 2,
        is_record_text(first, texts[0]),
        is_record_text(second, texts[1]),
{
    assert(seq![first, second][0] == first);
    assert(seq![first, second][1] == second);
}

} // verus!
