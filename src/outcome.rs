use vstd::prelude::*;
use vstd::string::StringExecFns;
use vstd::utf8::{decode_utf8, valid_utf8};

use crate::error::RunError;
use crate::lock::opt_view;

verus! {

/// A field element produced by the executed program, held as its 32-byte
/// big-endian representation.
#[derive(Clone, Copy, Debug)]
pub struct Felt {
    pub be_bytes: [u8; 32],
}

impl View for Felt {
    type V = Seq<u8>;

    open spec fn view(&self) -> Seq<u8> {
        self.be_bytes@
    }
}

/// The terminal outcome of one run: exactly one of a normal return, a
/// controlled program panic, or a failure.
#[derive(Debug)]
pub enum ExecutionOutcome {
    ReturnValues(Vec<Felt>),
    Panic(Vec<Felt>),
    Failure(RunError),
}

/// The number that big-endian bytes stand for.
pub open spec fn be_value(b: Seq<u8>) -> nat
    decreases b.len(),
{
    if b.len() == 0 {
        0
    } else {
        be_value(b.drop_last()) * 256 + (b.last() as nat)
    }
}

pub open spec fn digit_char(d: nat) -> char {
    if d == 0 {
        '0'
    } else if d == 1 {
        '1'
    } else if d == 2 {
        '2'
    } else if d == 3 {
        '3'
    } else if d == 4 {
        '4'
    } else if d == 5 {
        '5'
    } else if d == 6 {
        '6'
    } else if d == 7 {
        '7'
    } else if d == 8 {
        '8'
    } else {
        '9'
    }
}

/// Decimal notation of a natural number, without leading zeros.
pub open spec fn decimal_text(n: nat) -> Seq<char>
    decreases n,
{
    if n < 10 {
        seq![digit_char(n)]
    } else {
        decimal_text(n / 10).push(digit_char(n % 10))
    }
}

/// The parts joined, with `sep` between each two neighbours.
pub open spec fn join_with(parts: Seq<Seq<char>>, sep: Seq<char>) -> Seq<char>
    decreases parts.len(),
{
    if parts.len() == 0 {
        seq![]
    } else if parts.len() == 1 {
        parts[0]
    } else {
        join_with(parts.drop_last(), sep) + sep + parts.last()
    }
}

pub open spec fn felt_views(v: Seq<Felt>) -> Seq<Seq<u8>> {
    v.map_values(|f: Felt| f@)
}

/// One returned value: its decimal form.
pub open spec fn return_piece(f: Seq<u8>) -> Seq<char> {
    decimal_text(be_value(f))
}

/// One panic value: its decimal form, followed by the text its bytes decode
/// to when they are valid UTF-8.
pub open spec fn panic_piece(f: Seq<u8>) -> Seq<char> {
    if valid_utf8(f) {
        decimal_text(be_value(f)) + " ('"@ + decode_utf8(f) + "')"@
    } else {
        decimal_text(be_value(f))
    }
}

/// The line printed for returned values; nothing for an empty list.
pub open spec fn return_values_line(v: Seq<Seq<u8>>) -> Option<Seq<char>> {
    if v.len() == 0 {
        None
    } else {
        Some(
            "Return values : ["@ + join_with(v.map_values(|f: Seq<u8>| return_piece(f)), ", "@)
                + "]"@,
        )
    }
}

/// The line printed for a panic payload; nothing for an empty payload.
pub open spec fn panic_line(v: Seq<Seq<u8>>) -> Option<Seq<char>> {
    if v.len() == 0 {
        None
    } else {
        Some(
            "Run panicked with: ["@ + join_with(v.map_values(|f: Seq<u8>| panic_piece(f)), ", "@)
                + "]"@,
        )
    }
}

/// What a run reports: a line to print (or silence) when the program returned
/// or panicked, the failure otherwise.
pub open spec fn outcome_report(o: ExecutionOutcome) -> Result<Option<Seq<char>>, RunError> {
    match o {
        ExecutionOutcome::ReturnValues(v) => Ok(return_values_line(felt_views(v@))),
        ExecutionOutcome::Panic(v) => Ok(panic_line(felt_views(v@))),
        ExecutionOutcome::Failure(e) => Err(e),
    }
}

pub open spec fn report_view(r: Result<Option<String>, RunError>) -> Result<
    Option<Seq<char>>,
    RunError,
> {
    match r {
        Ok(l) => Ok(opt_view(l)),
        Err(e) => Err(e),
    }
}

/// Relies on num_bigint's `BigUint::from_bytes_be` and its `Display`: the
/// decimal digits of the big-endian number.
#[verifier::external_body]
fn decimal_of(b: &[u8; 32]) -> (r: String)
    ensures
        r@ == decimal_text(be_value(b@)),
{
    num_bigint::BigUint::from_bytes_be(b).to_string()
}

/// Relies on `String::from_utf8`: it succeeds exactly on valid UTF-8, with the
/// characters the bytes encode.
#[verifier::external_body]
fn utf8_text(b: &[u8; 32]) -> (r: Option<String>)
    ensures
        r is Some <==> valid_utf8(b@),
        r matches Some(s) ==> s@ == decode_utf8(b@),
{
    String::from_utf8(b.to_vec()).ok()
}

/// Joins the pieces with `", "` between neighbours.
pub fn join_pieces(pieces: &Vec<String>) -> (r: String)
    ensures
        r@ == join_with(pieces@.map_values(|s: String| s@), ", "@),
{
    let ghost vs = pieces@.map_values(|s: String| s@);
    let mut out = String::new();
    let mut i: usize = 0;
    while i < pieces.len()
        invariant
            i <= pieces.len(),
            vs == pieces@.map_values(|s: String| s@),
            out@ == join_with(vs.take(i as int), ", "@),
        decreases pieces.len() - i,
    {
        assert(vs.take(i + 1).drop_last() =~= vs.take(i as int));
        if i > 0 {
            out.append(", ");
        } else {
            assert(out@ + vs[0] =~= vs[0]);
        }
        out.append(pieces[i].as_str());
        i += 1;
    }
    assert(vs.take(i as int) =~= vs);
    out
}

/// Renders one panic value from its decoded text, if its bytes decoded.
pub fn render_panic_value(value: &Felt, decoded: Option<String>) -> (r: String)
    ensures
        r@ == match decoded {
            Some(t) => decimal_text(be_value(value@)) + " ('"@ + t@ + "')"@,
            None => decimal_text(be_value(value@)),
        },
{
    let digits = decimal_of(&value.be_bytes);
    match decoded {
        Some(t) => digits.concat(" ('").concat(t.as_str()).concat("')"),
        None => digits,
    }
}

/// The line for the values a program returned; `None` when there are none.
pub fn format_return_values(values: &Vec<Felt>) -> (r: Option<String>)
    ensures
        opt_view(r) == return_values_line(felt_views(values@)),
{
    if values.len() == 0 {
        return None;
    }
    let mut pieces: Vec<String> = Vec::new();
    let mut i: usize = 0;
    while i < values.len()
        invariant
            i <= values.len(),
            pieces.len() == i,
            forall|j: int| 0 <= j < i ==> #[trigger] pieces[j]@ == return_piece(values[j]@),
        decreases values.len() - i,
    {
        let d = decimal_of(&values[i].be_bytes);
        pieces.push(d);
        i += 1;
    }
    assert(pieces@.map_values(|s: String| s@) =~= felt_views(values@).map_values(
        |f: Seq<u8>| return_piece(f),
    ));
    let body = join_pieces(&pieces);
    Some(String::from_str("Return values : [").concat(body.as_str()).concat("]"))
}

/// The line for a panic payload; `None` when the payload is empty. A value
/// whose big-endian bytes are valid UTF-8 is shown with its decoded text.
pub fn format_panic_data(values: &Vec<Felt>) -> (r: Option<String>)
    ensures
        opt_view(r) == panic_line(felt_views(values@)),
{
    if values.len() == 0 {
        return None;
    }
    let mut pieces: Vec<String> = Vec::new();
    let mut i: usize = 0;
    while i < values.len()
        invariant
            i <= values.len(),
            pieces.len() == i,
            forall|j: int| 0 <= j < i ==> #[trigger] pieces[j]@ == panic_piece(values[j]@),
        decreases values.len() - i,
    {
        let decoded = utf8_text(&values[i].be_bytes);
        let p = render_panic_value(&values[i], decoded);
        pieces.push(p);
        i += 1;
    }
    assert(pieces@.map_values(|s: String| s@) =~= felt_views(values@).map_values(
        |f: Seq<u8>| panic_piece(f),
    ));
    let body = join_pieces(&pieces);
    Some(String::from_str("Run panicked with: [").concat(body.as_str()).concat("]"))
}

/// Classifies a run's outcome: the line to print (or `None` for silence) when
/// the program returned or panicked, the failure itself otherwise.
pub fn report(outcome: ExecutionOutcome) -> (r: Result<Option<String>, RunError>)
    ensures
        report_view(r) == outcome_report(outcome),
{
    match outcome {
        ExecutionOutcome::ReturnValues(v) => Ok(format_return_values(&v)),
        ExecutionOutcome::Panic(v) => Ok(format_panic_data(&v)),
        ExecutionOutcome::Failure(e) => Err(e),
    }
}

/// A run has exactly one outcome, and it is reported as a failure exactly
/// when it is `Failure`: a panic is never reported as a failure, and a failure
/// never prints returned values or a panic payload.
pub proof fn lemma_outcome_exclusive(o: ExecutionOutcome)
    ensures
        (o is ReturnValues) as int + (o is Panic) as int + (o is Failure) as int == 1,
        outcome_report(o) is Err <==> o is Failure,
        o is Panic ==> outcome_report(o) == Ok::<_, RunError>(panic_line(felt_views(o->Panic_0@))),
{
}

/// Empty returned values and an empty panic payload both print nothing.
pub proof fn lemma_empty_outcome_silent(v: Vec<Felt>)
    requires
        v@.len() == 0,
    ensures
        outcome_report(ExecutionOutcome::ReturnValues(v)) == Ok::<Option<Seq<char>>, RunError>(
            None,
        ),
        outcome_report(ExecutionOutcome::Panic(v)) == Ok::<Option<Seq<char>>, RunError>(None),
{
}

/// A panic value whose bytes are valid UTF-8 is shown in decimal and as the
/// decoded text; any other panic value in decimal alone.
pub proof fn lemma_panic_value_text(f: Felt)
    ensures
        valid_utf8(f@) ==> panic_piece(f@) == decimal_text(be_value(f@)) + " ('"@ + decode_utf8(
            f@,
        ) + "')"@,
        !valid_utf8(f@) ==> panic_piece(f@) == decimal_text(be_value(f@)),
{
}

} // verus!
