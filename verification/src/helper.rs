//! Small building blocks shared by the codecs and the rules.

use vstd::prelude::*;
use crate::cell::{cells_view, Cell, CellView, Script, ScriptView};
use crate::error::Error;

verus! {

/// Size of the length prefix that opens every variable-size field.
pub const DYN_MIN_LEN: usize = 2;

/// The transition that a transaction performs on one token.
#[derive(Debug, Clone, Copy, PartialEq, Eq, Structural)]
pub enum Action {
    Create,
    Update,
    Destroy,
}

/// The number that a two-byte little-endian length prefix encodes.
pub open spec fn prefix_value(prefix: Seq<u8>) -> nat
    recommends
        prefix.len() == DYN_MIN_LEN,
{
    prefix[0] as nat + 256 * (prefix[1] as nat)
}

/// The number of bytes that a field takes in a buffer: its length prefix and
/// the content that the prefix announces.
pub open spec fn dyn_vec_len(prefix: Seq<u8>) -> nat
    recommends
        prefix.len() == DYN_MIN_LEN,
{
    prefix_value(prefix) + DYN_MIN_LEN as nat
}

/// The size of the field that starts at offset `at` of `raw`, as its length
/// prefix announces it.
pub open spec fn field_len(raw: Seq<u8>, at: int) -> int
    recommends
        0 <= at,
        at + DYN_MIN_LEN <= raw.len(),
{
    dyn_vec_len(raw.subrange(at, at + DYN_MIN_LEN as int)) as int
}

/// The most bytes of content that a field can hold.
pub const DYN_MAX_CONTENT_LEN: usize = 0xffff;

/// The field that holds `content`: the length of the content as two
/// little-endian bytes, then the content.
pub open spec fn encode_field(content: Seq<u8>) -> Seq<u8>
    recommends
        content.len() <= DYN_MAX_CONTENT_LEN,
{
    seq![(content.len() % 256) as u8, (content.len() / 256) as u8] + content
}

/// The content of a field: what follows its length prefix.
pub open spec fn field_content(field: Seq<u8>) -> Seq<u8> {
    field.skip(DYN_MIN_LEN as int)
}

/// A field gives back the content that it was made of.
pub proof fn lemma_field_content(content: Seq<u8>)
    ensures
        field_content(encode_field(content)) == content,
        encode_field(content).len() == content.len() + DYN_MIN_LEN,
{
    assert(field_content(encode_field(content)) =~= content);
}

/// Where a buffer holds the field of `content` at offset `at`, the length
/// prefix read there announces the size of that field. This needs only the
/// two bytes of the prefix to be in the buffer.
pub proof fn lemma_field_len(raw: Seq<u8>, at: int, content: Seq<u8>)
    requires
        content.len() <= DYN_MAX_CONTENT_LEN,
        0 <= at,
        at + DYN_MIN_LEN <= raw.len(),
        raw.subrange(at, at + DYN_MIN_LEN as int) == encode_field(content).take(
            DYN_MIN_LEN as int,
        ),
    ensures
        field_len(raw, at) == content.len() + DYN_MIN_LEN,
{
    let prefix = raw.subrange(at, at + DYN_MIN_LEN as int);
    let n = content.len();
    assert(prefix[0] == encode_field(content).take(DYN_MIN_LEN as int)[0]);
    assert(prefix[1] == encode_field(content).take(DYN_MIN_LEN as int)[1]);
    assert(prefix[0] == (n % 256) as u8);
    assert(prefix[1] == (n / 256) as u8);
    assert(n % 256 + 256 * (n / 256) == n);
}

/// A field cut out of a buffer by the length that its prefix announces is
/// the field of its own content.
pub proof fn lemma_decoded_field(raw: Seq<u8>, at: int)
    requires
        0 <= at,
        at + field_len(raw, at) <= raw.len(),
    ensures
        DYN_MIN_LEN <= field_len(raw, at) <= DYN_MAX_CONTENT_LEN + DYN_MIN_LEN,
        raw.subrange(at, at + field_len(raw, at)) == encode_field(
            field_content(raw.subrange(at, at + field_len(raw, at))),
        ),
{
    let prefix = raw.subrange(at, at + DYN_MIN_LEN as int);
    let field = raw.subrange(at, at + field_len(raw, at));
    let n = field_content(field).len();
    assert(n == prefix[0] as nat + 256 * (prefix[1] as nat));
    assert((n % 256) as u8 == prefix[0] && (n / 256) as u8 == prefix[1]);
    assert(field[0] == prefix[0] && field[1] == prefix[1]);
    assert(field =~= encode_field(field_content(field)));
}

/// Reads a length prefix and returns the size of the whole field.
pub fn parse_dyn_vec_len(data: &[u8]) -> (len: usize)
    requires
        data@.len() == DYN_MIN_LEN,
    ensures
        len == dyn_vec_len(data@),
        DYN_MIN_LEN <= len <= 0xffff + DYN_MIN_LEN,
{
    let low: usize = data[0] as usize;
    let high: usize = data[1] as usize;
    low + 256 * high + DYN_MIN_LEN
}

/// Whether two byte strings are equal, byte for byte.
pub fn bytes_equal(a: &[u8], b: &[u8]) -> (eq: bool)
    ensures
        eq == (a@ == b@),
{
    if a.len() != b.len() {
        return false;
    }
    let mut i: usize = 0;
    while i < a.len()
        invariant
            a@.len() == b@.len(),
            i <= a@.len(),
            forall|k: int| 0 <= k < i ==> a@[k] == b@[k],
        decreases a@.len() - i,
    {
        if a[i] != b[i] {
            return false;
        }
        i += 1;
    }
    assert(a@ =~= b@);
    true
}

/// Whether a cell has a type that `pred` accepts.
pub open spec fn type_matches(cell: CellView, pred: spec_fn(ScriptView) -> bool) -> bool {
    match cell.type_ {
        Some(script) => pred(script),
        None => false,
    }
}

/// The number of cells whose type `pred` accepts.
pub open spec fn count_by_type(cells: Seq<CellView>, pred: spec_fn(ScriptView) -> bool) -> nat
    decreases cells.len(),
{
    if cells.len() == 0 {
        0
    } else {
        count_by_type(cells.drop_last(), pred) + if type_matches(cells.last(), pred) {
            1nat
        } else {
            0nat
        }
    }
}

/// The count is at most the number of cells, and it is zero exactly when
/// no cell has a type that `pred` accepts.
pub proof fn lemma_count_by_type(cells: Seq<CellView>, pred: spec_fn(ScriptView) -> bool)
    ensures
        count_by_type(cells, pred) <= cells.len(),
        count_by_type(cells, pred) == 0 <==> forall|k: int|
            0 <= k < cells.len() ==> !type_matches(#[trigger] cells[k], pred),
    decreases cells.len(),
{
    if cells.len() > 0 {
        let front = cells.drop_last();
        lemma_count_by_type(front, pred);
        if count_by_type(cells, pred) == 0 {
            assert forall|k: int| 0 <= k < cells.len() implies !type_matches(
                #[trigger] cells[k],
                pred,
            ) by {
                if k < front.len() {
                    assert(cells[k] == front[k]);
                }
            }
        } else if count_by_type(front, pred) != 0 {
            let k = choose|k: int| 0 <= k < front.len() && type_matches(#[trigger] front[k], pred);
            assert(cells[k] == front[k]);
        }
    }
}

/// The index of the first cell at or after `from` whose type `pred` accepts.
pub open spec fn position_from(
    cells: Seq<CellView>,
    pred: spec_fn(ScriptView) -> bool,
    from: int,
) -> Option<int>
    decreases cells.len() - from,
{
    if from < 0 || from >= cells.len() {
        None
    } else if type_matches(cells[from], pred) {
        Some(from)
    } else {
        position_from(cells, pred, from + 1)
    }
}

/// The index of the first cell whose type `pred` accepts.
pub open spec fn position_by_type(cells: Seq<CellView>, pred: spec_fn(ScriptView) -> bool) -> Option<
    int,
> {
    position_from(cells, pred, 0)
}

/// The first match is a match, and no cell between `from` and it is one;
/// where there is no first match, no cell at or after `from` is a match.
pub proof fn lemma_position_from(
    cells: Seq<CellView>,
    pred: spec_fn(ScriptView) -> bool,
    from: int,
)
    requires
        0 <= from,
    ensures
        match position_from(cells, pred, from) {
            Some(i) => {
                &&& from <= i < cells.len()
                &&& type_matches(cells[i], pred)
                &&& forall|k: int| from <= k < i ==> !type_matches(#[trigger] cells[k], pred)
            },
            None => forall|k: int|
                from <= k < cells.len() ==> !type_matches(#[trigger] cells[k], pred),
        },
    decreases cells.len() - from,
{
    if from < cells.len() && !type_matches(cells[from], pred) {
        lemma_position_from(cells, pred, from + 1);
    }
}

/// Counts the cells whose type the test `check` accepts. `pred` is what
/// `check` computes.
pub fn count_cells_by_type<F: Fn(&Script) -> bool>(
    cells: &Vec<Cell>,
    check: F,
    Ghost(pred): Ghost<spec_fn(ScriptView) -> bool>,
) -> (count: usize)
    requires
        forall|script: &Script| call_requires(check, (script,)),
        forall|script: &Script, accepted: bool|
            call_ensures(check, (script,), accepted) ==> accepted == pred(script@),
    ensures
        count == count_by_type(cells_view(cells@), pred),
{
    let mut count: usize = 0;
    let mut i: usize = 0;
    while i < cells.len()
        invariant
            i <= cells@.len(),
            count <= i,
            count == count_by_type(cells_view(cells@).take(i as int), pred),
            forall|script: &Script| call_requires(check, (script,)),
            forall|script: &Script, accepted: bool|
                call_ensures(check, (script,), accepted) ==> accepted == pred(script@),
        decreases cells@.len() - i,
    {
        let accepted: bool = match &cells[i].type_ {
            Some(script) => check(script),
            None => false,
        };
        proof {
            let all = cells_view(cells@);
            assert(all.take(i + 1).drop_last() =~= all.take(i as int));
            assert(all.take(i + 1).last() == cells@[i as int]@);
            assert(accepted == type_matches(all.take(i + 1).last(), pred));
        }
        if accepted {
            count += 1;
        }
        i += 1;
    }
    assert(cells_view(cells@).take(i as int) =~= cells_view(cells@));
    count
}

/// Finds the first cell whose type the test `check` accepts. `pred` is what
/// `check` computes.
pub fn position_of_type<F: Fn(&Script) -> bool>(
    cells: &Vec<Cell>,
    check: F,
    Ghost(pred): Ghost<spec_fn(ScriptView) -> bool>,
) -> (position: Option<usize>)
    requires
        forall|script: &Script| call_requires(check, (script,)),
        forall|script: &Script, accepted: bool|
            call_ensures(check, (script,), accepted) ==> accepted == pred(script@),
    ensures
        match position {
            Some(i) => i < cells@.len() && position_by_type(cells_view(cells@), pred) == Some(
                i as int,
            ),
            None => position_by_type(cells_view(cells@), pred) == None::<int>,
        },
{
    let mut i: usize = 0;
    while i < cells.len()
        invariant
            i <= cells@.len(),
            position_by_type(cells_view(cells@), pred) == position_from(
                cells_view(cells@),
                pred,
                i as int,
            ),
            forall|script: &Script| call_requires(check, (script,)),
            forall|script: &Script, accepted: bool|
                call_ensures(check, (script,), accepted) ==> accepted == pred(script@),
        decreases cells@.len() - i,
    {
        let accepted: bool = match &cells[i].type_ {
            Some(script) => check(script),
            None => false,
        };
        assert(accepted == type_matches(cells_view(cells@)[i as int], pred));
        if accepted {
            return Some(i);
        }
        i += 1;
    }
    None
}

/// The test that accepts the scripts equal to `script`.
pub open spec fn same_type(script: ScriptView) -> spec_fn(ScriptView) -> bool {
    |other: ScriptView| other == script
}

/// Finds the first cell whose type is `type_script`, and fails with
/// `Encoding` if there is none.
pub fn load_output_index_by_type(cells: &Vec<Cell>, type_script: &Script) -> (index: Result<
    usize,
    Error,
>)
    ensures
        match index {
            Ok(i) => i < cells@.len() && position_by_type(
                cells_view(cells@),
                same_type(type_script@),
            ) == Some(i as int),
            Err(e) => e == Error::Encoding && position_by_type(
                cells_view(cells@),
                same_type(type_script@),
            ) == None::<int>,
        },
{
    let check = |other: &Script| -> (accepted: bool)
        ensures
            accepted == (other@ == type_script@),
        { other.same_as(type_script) };
    match position_of_type(cells, &check, Ghost(same_type(type_script@))) {
        Some(i) => Ok(i),
        None => Err(Error::Encoding),
    }
}

/// Whether one of the cells has the lock `lock`.
pub fn any_locked_by(cells: &Vec<Cell>, lock: &[u8]) -> (found: bool)
    ensures
        found == exists|k: int| 0 <= k < cells@.len() && (#[trigger] cells_view(cells@)[k]).lock == lock@,
{
    let mut i: usize = 0;
    while i < cells.len()
        invariant
            i <= cells@.len(),
            forall|k: int| 0 <= k < i ==> (#[trigger] cells_view(cells@)[k]).lock != lock@,
        decreases cells@.len() - i,
    {
        if bytes_equal(cells[i].lock.as_slice(), lock) {
            assert(cells_view(cells@)[i as int].lock == lock@);
            return true;
        }
        i += 1;
    }
    false
}

} // verus!
