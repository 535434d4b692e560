//! Properties of decoding and reporting that hold for every buffer or record.
use vstd::prelude::*;
use crate::layout::{HEADER_LEN, decoded, discriminator, parse_creator, parse_creator_run};
use crate::record::{DecodeError, RecordModel};
use crate::encoding::{encode, lemma_parse_encoded, record_wf};
use crate::report::{creator_line_text, creator_lines, end_settings_lines, report};
use crate::text::base58_of;

verus! {

/// A buffer shorter than the discriminator is rejected as running out of bytes.
pub proof fn lemma_short_buffer_underruns(b: Seq<u8>)
    requires
        b.len() < HEADER_LEN,
    ensures
        decoded(b) == Err::<RecordModel, DecodeError>(DecodeError::BufferUnderrun),
{
}

/// A buffer whose discriminator is wrong is rejected as such, and the outcome
/// depends on the first eight bytes alone: no later field is read.
pub proof fn lemma_wrong_discriminator(b1: Seq<u8>, b2: Seq<u8>)
    requires
        b1.len() >= HEADER_LEN,
        b2.len() >= HEADER_LEN,
        b1.subrange(0, HEADER_LEN as int) == b2.subrange(0, HEADER_LEN as int),
        b1.subrange(0, HEADER_LEN as int) != discriminator(),
    ensures
        decoded(b1) == Err::<RecordModel, DecodeError>(DecodeError::WrongDiscriminator),
        decoded(b2) == decoded(b1),
{
}

/// Altering any byte of the discriminator of a buffer that decodes makes it
/// fail with a wrong discriminator.
pub proof fn lemma_altered_discriminator(b: Seq<u8>, i: int, v: u8)
    requires
        decoded(b) is Ok,
        0 <= i < HEADER_LEN,
        b[i] != v,
    ensures
        decoded(b.update(i, v)) == Err::<RecordModel, DecodeError>(DecodeError::WrongDiscriminator),
{
    let c = b.update(i, v);
    assert(c.subrange(0, HEADER_LEN as int)[i] != discriminator()[i]);
}

/// Decoding depends on the bytes alone: the same buffer decodes to the same
/// record, or fails with the same error, every time.
pub proof fn lemma_decode_deterministic(b1: Seq<u8>, b2: Seq<u8>)
    requires
        b1 == b2,
    ensures
        decoded(b1) == decoded(b2),
{
}

/// Each creator takes exactly 34 bytes; a run of `n` creators that decodes ends
/// exactly `34 * n` bytes later and holds `n` entries, never fewer.
pub proof fn lemma_creator_run_exact(b: Seq<u8>, p: int, n: nat)
    requires
        0 <= p <= b.len(),
        parse_creator_run(b, p, n) is Ok,
    ensures
        parse_creator_run(b, p, n)->Ok_0.0.len() == n,
        parse_creator_run(b, p, n)->Ok_0.1 == p + 34 * n,
        p + 34 * n <= b.len(),
    decreases n,
{
    if n > 0 {
        lemma_creator_run_exact(b, p, (n - 1) as nat);
    }
}

/// When the buffer ends before the last of `n` declared creators, decoding the
/// run fails with a buffer underrun rather than giving a shorter list, provided
/// the entries before the end are well formed.
pub proof fn lemma_creator_run_underrun(b: Seq<u8>, p: int, k: nat, n: nat)
    requires
        0 <= p <= b.len(),
        k < n,
        parse_creator_run(b, p, k) is Ok,
        b.len() < p + 34 * (k + 1),
        b.len() > p + 34 * k + 32 ==> b[p + 34 * k + 32] <= 1,
    ensures
        parse_creator_run(b, p, n) == Err::<(Seq<crate::record::CreatorModel>, int), DecodeError>(
            DecodeError::BufferUnderrun),
    decreases n,
{
    lemma_creator_run_exact(b, p, k);
    let q = p + 34 * k;
    if n == k + 1 {
        assert(parse_creator(b, q) == Err::<(crate::record::CreatorModel, int), DecodeError>(
            DecodeError::BufferUnderrun));
    } else {
        lemma_creator_run_underrun(b, p, k, (n - 1) as nat);
    }
}

/// With every optional field absent, each optional field's line reads `None`,
/// and the report has one line per field plus one per creator.
pub proof fn lemma_absent_optionals_read_none(m: RecordModel)
    requires
        m.token_mint is None,
        m.data.go_live_date is None,
        m.data.end_settings is None,
        m.data.hidden_settings is None,
        m.data.whitelist_mint_settings is None,
        m.data.gatekeeper is None,
    ensures
        ({
            let n = m.data.creators.len() as int;
            let r = report(m);
            &&& r.len() == 19 + n
            &&& r[2] == "token_mint: "@ + "None"@
            &&& r[12] == " go_live_date: "@ + "None"@
            &&& r[13] == " end_settings: None"@
            &&& r[14] == " creators:"@
            &&& r[15 + n] == " hidden_settings: None"@
            &&& r[16 + n] == " whitelist_mint_settings: None"@
            &&& r[18 + n] == " gatekeeper: None"@
        }),
{
}

/// With every optional field present, the report gives each field of each
/// nested record on its own line, and the creators' lines keep their order.
pub proof fn lemma_present_optionals_listed(m: RecordModel)
    requires
        m.token_mint is Some,
        m.data.go_live_date is Some,
        m.data.end_settings is Some,
        m.data.hidden_settings is Some,
        m.data.whitelist_mint_settings is Some,
        m.data.gatekeeper is Some,
    ensures
        ({
            let n = m.data.creators.len() as int;
            let r = report(m);
            &&& r.len() == 30 + n
            &&& r[13] == " end_settings:"@
            &&& r[16] == " creators:"@
            &&& r.subrange(17, 17 + n) == creator_lines(m.data.creators)
            &&& r[17 + n] == " hidden_settings:"@
            &&& r[21 + n] == " whitelist_mint_settings:"@
            &&& r[27 + n] == " gatekeeper:"@
        }),
{
    let n = m.data.creators.len() as int;
    assert(report(m).subrange(17, 17 + n) =~= creator_lines(m.data.creators));
}

/// Where the creators' lines stand in a report: together after the
/// ` creators:` label, one per creator in order.
pub open spec fn creators_listed_in_order(m: RecordModel) -> bool {
    let r = report(m);
    let k: int = 14 + end_settings_lines(m.data.end_settings).len() as int;
    let cs = m.data.creators;
    &&& r[k - 1] == " creators:"@
    &&& r.subrange(k, k + cs.len() as int) == creator_lines(cs)
    &&& forall|i: int| 0 <= i < cs.len() ==> #[trigger] r[k + i] == creator_line_text(
        base58_of(cs[i].address),
        cs[i].verified,
        cs[i].share,
    )
}

proof fn lemma_creators_listed_in_order(m: RecordModel)
    ensures
        creators_listed_in_order(m),
{
    let r = report(m);
    let k: int = 14 + end_settings_lines(m.data.end_settings).len() as int;
    let cs = m.data.creators;
    assert(r.subrange(k, k + cs.len() as int) =~= creator_lines(cs));
    assert forall|i: int| 0 <= i < cs.len() implies #[trigger] r[k + i] == creator_line_text(
        base58_of(cs[i].address),
        cs[i].verified,
        cs[i].share,
    ) by {
        assert(r[k + i] == r.subrange(k, k + cs.len() as int)[i]);
    }
}

/// Decoding the bytes of any record that the layout can hold, followed by any
/// trailing bytes, gives that record back, so its report is exactly the
/// record's labeled lines, with the creators' lines in the encoded order.
pub proof fn lemma_decode_then_report(m: RecordModel, trailing: Seq<u8>)
    requires
        record_wf(m),
    ensures
        decoded(encode(m) + trailing) == Ok::<RecordModel, DecodeError>(m),
        creators_listed_in_order(m),
{
    lemma_parse_encoded(m, trailing);
    lemma_creators_listed_in_order(m);
}

} // verus!
