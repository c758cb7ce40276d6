//! Checks on a PSBT, before it goes to the device and after it comes back.

use bitcoin::consensus::serialize;
use bitcoin::psbt::PsbtSighashType;
use bitcoin::Psbt as BitcoinPsbt;
use vstd::prelude::*;
use vstd::string::StringExecFns;

use crate::error::{self, Failure, JadeError};
use crate::text;

verus! {

/// Largest PSBT this crate will send.
///
/// Jade's input buffer is 17 KiB without SPIRAM, and composed PSBTs carry full
/// previous transactions, so this is worth checking before a long transfer the
/// device would reject at the end.
pub const MAX_PSBT_BYTES: u64 = 16 * 1024;

/// Sighash flag for all inputs and outputs.
pub const SIGHASH_ALL: u32 = 1;

/// Sighash flag of a taproot input that asks for nothing special.
pub const SIGHASH_DEFAULT: u32 = 0;

/// What this crate reads of one input of a PSBT.
#[derive(Debug, Clone)]
pub struct PsbtInput {
    /// The requested sighash flag.
    pub sighash_type: Option<u32>,
    /// Master fingerprints of the input's key origins.
    pub origins: Vec<u32>,
    /// The spent output, in consensus encoding.
    pub witness_utxo: Option<Vec<u8>>,
    /// The previous transaction, in consensus encoding.
    pub non_witness_utxo: Option<Vec<u8>>,
    /// How many partial signatures there are.
    pub partial_sigs: usize,
    /// Whether there is a final witness.
    pub final_script_witness: bool,
    /// Whether there is a final script signature.
    pub final_script_sig: bool,
    /// Whether there is a taproot key signature.
    pub tap_key_sig: bool,
    /// How many taproot script signatures there are.
    pub tap_script_sigs: usize,
}

/// What this crate reads of a PSBT.
#[derive(Debug, Clone)]
pub struct PsbtFields {
    /// The unsigned transaction, in consensus encoding.
    pub unsigned_tx: Vec<u8>,
    /// The inputs.
    pub inputs: Vec<PsbtInput>,
    /// How many outputs there are.
    pub outputs: usize,
}

/// A PSBT in its binary form, with what this crate reads of it.
#[derive(Debug)]
pub struct Psbt {
    serialized: Vec<u8>,
    fields: PsbtFields,
}

/// The mathematical value of a [`PsbtInput`].
#[verifier::ext_equal]
pub struct InputContent {
    pub sighash_type: Option<u32>,
    pub origins: Seq<u32>,
    pub witness_utxo: Option<Seq<u8>>,
    pub non_witness_utxo: Option<Seq<u8>>,
    pub partial_sigs: nat,
    pub final_script_witness: bool,
    pub final_script_sig: bool,
    pub tap_key_sig: bool,
    pub tap_script_sigs: nat,
}

/// The mathematical value of a [`PsbtFields`].
#[verifier::ext_equal]
pub struct Content {
    pub unsigned_tx: Seq<u8>,
    pub inputs: Seq<InputContent>,
    pub outputs: nat,
}

/// The value of optional bytes.
pub open spec fn optional(bytes: Option<Vec<u8>>) -> Option<Seq<u8>> {
    match bytes {
        Some(bytes) => Some(bytes@),
        None => None,
    }
}

impl View for PsbtInput {
    type V = InputContent;

    open spec fn view(&self) -> InputContent {
        InputContent {
            sighash_type: self.sighash_type,
            origins: self.origins@,
            witness_utxo: optional(self.witness_utxo),
            non_witness_utxo: optional(self.non_witness_utxo),
            partial_sigs: self.partial_sigs as nat,
            final_script_witness: self.final_script_witness,
            final_script_sig: self.final_script_sig,
            tap_key_sig: self.tap_key_sig,
            tap_script_sigs: self.tap_script_sigs as nat,
        }
    }
}

impl View for PsbtFields {
    type V = Content;

    open spec fn view(&self) -> Content {
        Content {
            unsigned_tx: self.unsigned_tx@,
            inputs: self.inputs@.map_values(|input: PsbtInput| input@),
            outputs: self.outputs as nat,
        }
    }
}

/// The value of a PSBT is what is read of it; [`Psbt::bytes`] is its binary
/// form.
impl View for Psbt {
    type V = Content;

    closed spec fn view(&self) -> Content {
        self.fields@
    }
}

/// The fields of an input as they leave the parser: sighash flag, fingerprints
/// of the key origins and of the taproot key origins, spent output, previous
/// transaction, number of partial signatures, whether there is a final witness,
/// a final script signature and a taproot key signature, and number of taproot
/// script signatures.
pub struct RawInput(
    pub Option<u32>,
    pub Vec<[u8; 4]>,
    pub Vec<[u8; 4]>,
    pub Option<Vec<u8>>,
    pub Option<Vec<u8>>,
    pub usize,
    pub bool,
    pub bool,
    pub bool,
    pub usize,
);

/// A fingerprint as a number, its first byte the most significant.
pub open spec fn number(bytes: [u8; 4]) -> u32 {
    (bytes[0] * 0x100_0000 + bytes[1] * 0x1_0000 + bytes[2] * 0x100 + bytes[3]) as u32
}

impl View for RawInput {
    type V = InputContent;

    open spec fn view(&self) -> InputContent {
        InputContent {
            sighash_type: self.0,
            origins: self.1@.map_values(|bytes: [u8; 4]| number(bytes)) + self.2@.map_values(
                |bytes: [u8; 4]| number(bytes),
            ),
            witness_utxo: optional(self.3),
            non_witness_utxo: optional(self.4),
            partial_sigs: self.5 as nat,
            final_script_witness: self.6,
            final_script_sig: self.7,
            tap_key_sig: self.8,
            tap_script_sigs: self.9 as nat,
        }
    }
}

/// The value of what the parser returns.
pub open spec fn parsed(r: Result<(Vec<u8>, Vec<RawInput>, usize), String>) -> Result<
    Content,
    Seq<char>,
> {
    match r {
        Ok((unsigned_tx, inputs, outputs)) => Ok(
            Content {
                unsigned_tx: unsigned_tx@,
                inputs: inputs@.map_values(|input: RawInput| input@),
                outputs: outputs as nat,
            },
        ),
        Err(message) => Err(message@),
    }
}

/// What `bitcoin::Psbt::deserialize` makes of bytes: the PSBT, or the message
/// of its error.
pub uninterp spec fn psbt_content(bytes: Seq<u8>) -> Result<Content, Seq<char>>;

/// Calls `bitcoin::Psbt::deserialize`.
///
/// Claimed of it: the fields and the error's message depend on the bytes alone.
#[verifier::external_body]
fn parse_psbt(bytes: &[u8]) -> (r: Result<(Vec<u8>, Vec<RawInput>, usize), String>)
    ensures
        parsed(r) == psbt_content(bytes@),
{
    let psbt = BitcoinPsbt::deserialize(bytes).map_err(|error| error.to_string())?;
    let inputs = psbt.inputs.iter().map(|i| RawInput(
        i.sighash_type.map(PsbtSighashType::to_u32),
        i.bip32_derivation.values().map(|source| source.0.to_bytes()).collect(),
        i.tap_key_origins.values().map(|origin| origin.1.0.to_bytes()).collect(),
        i.witness_utxo.as_ref().map(serialize),
        i.non_witness_utxo.as_ref().map(serialize),
        i.partial_sigs.len(),
        i.final_script_witness.is_some(),
        i.final_script_sig.is_some(),
        i.tap_key_sig.is_some(),
        i.tap_script_sigs.len()
    ));
    Ok((serialize(&psbt.unsigned_tx), inputs.collect(), psbt.outputs.len()))
}

/// Calls `PsbtSighashType::ecdsa_hash_ty`.
///
/// Claimed of it: the six standard flags are read as themselves, and no other
/// flag is read.
#[verifier::external_body]
fn ecdsa_sighash(flag: u32) -> (r: Option<u32>)
    ensures
        r == if 0x01 <= flag <= 0x03 || 0x81 <= flag <= 0x83 {
            Some(flag)
        } else {
            None
        },
{
    match PsbtSighashType::from_u32(flag).ecdsa_hash_ty() {
        Ok(kind) => Some(kind.to_u32()),
        Err(_) => None,
    }
}

/// Calls `PsbtSighashType::taproot_hash_ty`.
///
/// Claimed of it: zero and the six standard flags are read as themselves, and
/// no other flag is read.
#[verifier::external_body]
fn taproot_sighash(flag: u32) -> (r: Option<u32>)
    ensures
        r == if flag <= 0x03 || 0x81 <= flag <= 0x83 {
            Some(flag)
        } else {
            None
        },
{
    match PsbtSighashType::from_u32(flag).taproot_hash_ty() {
        Ok(kind) => Some(kind as u32),
        Err(_) => None,
    }
}

/// Whether the device signs an input that requests this sighash flag.
pub open spec fn supported(sighash_type: Option<u32>) -> bool {
    sighash_type matches Some(flag) ==> flag == SIGHASH_ALL || flag == SIGHASH_DEFAULT
}

/// The first input that requests an unsupported sighash type.
pub open spec fn first_unsupported(inputs: Seq<InputContent>) -> Option<nat>
    decreases inputs.len(),
{
    if inputs.len() == 0 {
        None
    } else {
        match first_unsupported(inputs.drop_last()) {
            Some(index) => Some(index),
            None => if supported(inputs.last().sighash_type) {
                None
            } else {
                Some((inputs.len() - 1) as nat)
            },
        }
    }
}

/// Whether every input requests a sighash type that the device supports.
pub open spec fn sighashes_checked(inputs: Seq<InputContent>) -> Result<(), Failure> {
    match first_unsupported(inputs) {
        None => Ok(()),
        Some(index) => Err(
            Failure::Psbt(
                "input "@ + text::decimal(index) + " requests an unsupported sighash type"@,
            ),
        ),
    }
}

/// The master fingerprints of all key origins, in the order of the inputs.
pub open spec fn all_origins(inputs: Seq<InputContent>) -> Seq<u32>
    decreases inputs.len(),
{
    if inputs.len() == 0 {
        Seq::empty()
    } else {
        all_origins(inputs.drop_last()) + inputs.last().origins
    }
}

/// Whether each number is smaller than those after it.
pub open spec fn ascending(numbers: Seq<u32>) -> bool {
    forall|i: int, j: int| 0 <= i < j < numbers.len() ==> numbers[i] < numbers[j]
}

/// Whether `list` holds the numbers of `seen`, each once, in ascending order.
pub open spec fn lists(list: Seq<u32>, seen: Seq<u32>) -> bool {
    &&& ascending(list)
    &&& forall|n: u32| #![trigger list.contains(n)] #![trigger seen.contains(n)]
        list.contains(n) <==> seen.contains(n)
}

/// The numbers of `seen`, each once, in ascending order.
pub open spec fn listing(seen: Seq<u32>) -> Seq<u32> {
    choose|list: Seq<u32>| lists(list, seen)
}

/// The fingerprints `seen` as text, each once, in ascending order.
pub open spec fn listing_text(seen: Seq<u32>) -> Seq<char> {
    text::joined(listing(seen).map_values(|n: u32| text::fingerprint(n)), ", "@)
}

/// Whether some key origin belongs to the device with master fingerprint
/// `device`.
pub open spec fn origins_checked(inputs: Seq<InputContent>, device: u32) -> Result<(), Failure> {
    let seen = all_origins(inputs);
    if seen.contains(device) {
        Ok(())
    } else {
        Err(
            Failure::Fingerprint { device: text::fingerprint(device), psbt: listing_text(seen) },
        )
    }
}

/// There is one listing of the numbers of `seen`, whatever order they come in.
pub proof fn listing_unique(list: Seq<u32>, seen: Seq<u32>)
    requires
        lists(list, seen),
    ensures
        list == listing(seen),
{
    ascending_unique(list, listing(seen));
}

/// Ascending sequences of the same numbers are the same.
proof fn ascending_unique(a: Seq<u32>, b: Seq<u32>)
    requires
        ascending(a),
        ascending(b),
        forall|n: u32| a.contains(n) <==> b.contains(n),
    ensures
        a == b,
    decreases a.len(),
{
    if a.len() == 0 {
        if b.len() > 0 {
            assert(b.contains(b[0]));
        }
        assert(a =~= b);
    } else {
        assert(a.contains(a.last()));
        assert(b.contains(a.last()));
        assert(b.contains(b.last()));
        assert(a.contains(b.last()));
        assert(a.last() == b.last());
        let (p, q) = (a.drop_last(), b.drop_last());
        assert forall|n: u32| p.contains(n) implies q.contains(n) by {
            let i = p.index_of(n);
            assert(a[i] == n);
            assert(b.contains(n));
            let j = b.index_of(n);
            assert(q[j] == n);
        }
        assert forall|n: u32| q.contains(n) implies p.contains(n) by {
            let j = q.index_of(n);
            assert(b[j] == n);
            assert(a.contains(n));
            let i = a.index_of(n);
            assert(p[i] == n);
        }
        ascending_unique(p, q);
        assert(a =~= p.push(a.last()));
        assert(b =~= q.push(b.last()));
    }
}

/// A listing stays one when a new number is put in its place.
proof fn listing_extended(list: Seq<u32>, seen: Seq<u32>, n: u32, at: int)
    requires
        lists(list, seen),
        0 <= at <= list.len(),
        forall|k: int| 0 <= k < at ==> list[k] < n,
        at < list.len() ==> list[at] > n,
    ensures
        lists(list.insert(at, n), seen.push(n)),
{
    let (longer, all) = (list.insert(at, n), seen.push(n));
    assert forall|m: u32| #![trigger longer.contains(m)] #![trigger all.contains(m)]
        longer.contains(m) <==> all.contains(m) by {
        if longer.contains(m) {
            let k = longer.index_of(m);
            if k == at {
                assert(all[seen.len() as int] == m);
            } else {
                assert(list[if k < at { k } else { k - 1 }] == m);
                assert(list.contains(m));
                assert(all[seen.index_of(m)] == m);
            }
        }
        if all.contains(m) {
            let k = all.index_of(m);
            if k == seen.len() {
                assert(longer[at] == m);
            } else {
                assert(seen[k] == m);
                assert(list.contains(m));
                let from = list.index_of(m);
                assert(longer[if from < at { from } else { from + 1 }] == m);
            }
        }
    }
}

/// A listing stays one when a number comes again.
proof fn listing_unchanged(list: Seq<u32>, seen: Seq<u32>, n: u32, at: int)
    requires
        lists(list, seen),
        0 <= at < list.len(),
        list[at] == n,
    ensures
        lists(list, seen.push(n)),
{
    let all = seen.push(n);
    assert forall|m: u32| #![trigger list.contains(m)] #![trigger all.contains(m)]
        list.contains(m) <==> all.contains(m) by {
        if list.contains(m) {
            assert(all[seen.index_of(m)] == m);
        }
        if all.contains(m) {
            let k = all.index_of(m);
            if k == seen.len() {
                assert(list[at] == m);
            } else {
                assert(seen[k] == m);
            }
        }
    }
}

/// The numbers of `seen`, each once, in ascending order.
fn list(seen: &Vec<u32>) -> (r: Vec<u32>)
    ensures
        r@ == listing(seen@),
{
    let mut list: Vec<u32> = Vec::new();
    let mut i: usize = 0;
    while i < seen.len()
        invariant
            i <= seen.len(),
            lists(list@, seen@.take(i as int)),
        decreases seen.len() - i,
    {
        let n: u32 = seen[i];
        let mut at: usize = 0;
        while at < list.len() && list[at] < n
            invariant
                at <= list.len(),
                ascending(list@),
                forall|k: int| 0 <= k < at ==> list@[k] < n,
            decreases list.len() - at,
        {
            at += 1;
        }
        let ghost before = list@;
        let ghost earlier = seen@.take(i as int);
        assert(seen@.take(i + 1) =~= earlier.push(n));
        if at == list.len() || list[at] != n {
            proof {
                listing_extended(before, earlier, n, at as int);
            }
            list.insert(at, n);
            assert(list@ == before.insert(at as int, n));
        } else {
            proof {
                listing_unchanged(before, earlier, n, at as int);
            }
        }
        i += 1;
    }
    assert(seen@.take(i as int) =~= seen@);
    proof {
        listing_unique(list@, seen@);
    }
    list
}

/// A fingerprint as a number, its first byte the most significant.
fn to_number(bytes: [u8; 4]) -> (r: u32)
    ensures
        r == number(bytes),
{
    bytes[0] as u32 * 0x100_0000 + bytes[1] as u32 * 0x1_0000 + bytes[2] as u32 * 0x100
        + bytes[3] as u32
}

/// Appends fingerprints as numbers.
fn push_numbers(out: &mut Vec<u32>, fingerprints: &Vec<[u8; 4]>)
    ensures
        final(out)@ == old(out)@ + fingerprints@.map_values(|bytes: [u8; 4]| number(bytes)),
{
    let ghost before = out@;
    let ghost numbers = fingerprints@.map_values(|bytes: [u8; 4]| number(bytes));
    let mut i: usize = 0;
    while i < fingerprints.len()
        invariant
            i <= fingerprints.len(),
            numbers == fingerprints@.map_values(|bytes: [u8; 4]| number(bytes)),
            out@ == before + numbers.take(i as int),
        decreases fingerprints.len() - i,
    {
        out.push(to_number(fingerprints[i]));
        assert(numbers.take(i + 1) =~= numbers.take(i as int).push(numbers[i as int]));
        i += 1;
    }
    assert(numbers.take(i as int) =~= numbers);
}

impl PsbtInput {
    fn from_raw(raw: RawInput) -> (r: PsbtInput)
        ensures
            r@ == raw@,
    {
        let mut origins: Vec<u32> = Vec::new();
        push_numbers(&mut origins, &raw.1);
        push_numbers(&mut origins, &raw.2);
        assert(origins@ =~= raw@.origins);
        PsbtInput {
            sighash_type: raw.0,
            origins,
            witness_utxo: raw.3,
            non_witness_utxo: raw.4,
            partial_sigs: raw.5,
            final_script_witness: raw.6,
            final_script_sig: raw.7,
            tap_key_sig: raw.8,
            tap_script_sigs: raw.9,
        }
    }
}

impl PsbtFields {
    /// Reads a PSBT from its binary form.
    pub fn read(bytes: &[u8]) -> (r: Result<PsbtFields, String>)
        ensures
            error::answer(r) == psbt_content(bytes@),
    {
        let (unsigned_tx, raw_inputs, outputs) = match parse_psbt(bytes) {
            Ok(fields) => fields,
            Err(message) => return Err(message),
        };
        let ghost content = raw_inputs@.map_values(|input: RawInput| input@);
        let ghost raw_seq = raw_inputs@;
        let mut inputs: Vec<PsbtInput> = Vec::new();
        for raw in it: raw_inputs.into_iter()
            invariant
                it.seq() == raw_seq,
                content == raw_seq.map_values(|input: RawInput| input@),
                inputs.len() == it.index(),
                forall|k: int| 0 <= k < inputs.len() ==> inputs@[k]@ == content[k],
        {
            inputs.push(PsbtInput::from_raw(raw));
        }
        let fields = PsbtFields { unsigned_tx, inputs, outputs };
        assert(fields@.inputs =~= content);
        Ok(fields)
    }
}

impl Psbt {
    /// What is read of a PSBT is what its binary form holds.
    #[verifier::type_invariant]
    pub open spec fn faithful(&self) -> bool {
        psbt_content(self.bytes()) == Ok::<Content, Seq<char>>(self@)
    }

    /// The PSBT in its binary form.
    pub closed spec fn bytes(&self) -> Seq<u8> {
        self.serialized@
    }

    /// A PSBT whose binary form holds `fields`.
    pub(crate) fn new(serialized: Vec<u8>, fields: PsbtFields) -> (r: Psbt)
        requires
            psbt_content(serialized@) == Ok::<Content, Seq<char>>(fields@),
        ensures
            r@ == fields@,
            r.bytes() == serialized@,
    {
        Psbt { serialized, fields }
    }

    /// Reads a PSBT from its binary form.
    pub fn deserialize(bytes: Vec<u8>) -> (r: Result<Psbt, String>)
        ensures
            error::answer(r) == psbt_content(bytes@),
            r matches Ok(psbt) ==> psbt.bytes() == bytes@,
    {
        match PsbtFields::read(bytes.as_slice()) {
            Ok(fields) => Ok(Psbt::new(bytes, fields)),
            Err(message) => Err(message),
        }
    }

    /// The PSBT in its binary form.
    pub fn serialized(&self) -> (r: &Vec<u8>)
        ensures
            r@ == self.bytes(),
            self.faithful(),
    {
        proof {
            use_type_invariant(self);
        }
        &self.serialized
    }

    /// What this crate reads of the PSBT.
    pub fn fields(&self) -> (r: &PsbtFields)
        ensures
            r@ == self@,
            self.faithful(),
    {
        proof {
            use_type_invariant(self);
        }
        &self.fields
    }
}

/// Rejects an input that requests a sighash type the device does not support.
pub fn check_sighashes(psbt: &PsbtFields) -> (r: Result<(), JadeError>)
    ensures
        error::outcome(r) == sighashes_checked(psbt@.inputs),
{
    let ghost inputs = psbt@.inputs;
    let mut i: usize = 0;
    while i < psbt.inputs.len()
        invariant
            i <= psbt.inputs.len(),
            inputs == psbt@.inputs,
            first_unsupported(inputs.take(i as int)) is None,
        decreases psbt.inputs.len() - i,
    {
        assert(inputs.take(i + 1).drop_last() =~= inputs.take(i as int));
        if let Some(flag) = psbt.inputs[i].sighash_type {
            let is_all = match ecdsa_sighash(flag) {
                Some(kind) => kind == SIGHASH_ALL,
                None => false,
            };
            let is_default = match taproot_sighash(flag) {
                Some(kind) => kind == SIGHASH_DEFAULT,
                None => false,
            };
            if !is_all && !is_default {
                proof {
                    first_unsupported_stays(inputs, i + 1);
                }
                let mut details = "input ".to_owned();
                text::push_decimal(&mut details, i as u64);
                return Err(
                    JadeError::InvalidPsbt {
                        error_details: text::concat(
                            details.as_str(),
                            " requests an unsupported sighash type",
                        ),
                    },
                );
            }
        }
        i += 1;
    }
    assert(inputs.take(i as int) =~= inputs);
    Ok(())
}

/// What is first in some of the inputs is first in all of them.
pub(crate) proof fn first_unsupported_stays(inputs: Seq<InputContent>, n: int)
    requires
        0 <= n <= inputs.len(),
        first_unsupported(inputs.take(n)) is Some,
    ensures
        first_unsupported(inputs) == first_unsupported(inputs.take(n)),
    decreases inputs.len() - n,
{
    if n == inputs.len() {
        assert(inputs.take(n) =~= inputs);
    } else {
        assert(inputs.take(n + 1).drop_last() =~= inputs.take(n));
        first_unsupported_stays(inputs, n + 1);
    }
}

/// Rejects a PSBT none of whose key origins belongs to the device with master
/// fingerprint `device`.
pub fn check_origins(psbt: &PsbtFields, device: u32) -> (r: Result<(), JadeError>)
    ensures
        error::outcome(r) == origins_checked(psbt@.inputs, device),
{
    let ghost inputs = psbt@.inputs;
    let mut seen: Vec<u32> = Vec::new();
    let mut matched = false;
    let mut i: usize = 0;
    while i < psbt.inputs.len()
        invariant
            i <= psbt.inputs.len(),
            inputs == psbt@.inputs,
            seen@ == all_origins(inputs.take(i as int)),
            matched == seen@.contains(device),
        decreases psbt.inputs.len() - i,
    {
        let origins = &psbt.inputs[i].origins;
        let ghost before = seen@;
        let mut k: usize = 0;
        while k < origins.len()
            invariant
                k <= origins.len(),
                seen@ == before + origins@.take(k as int),
                matched == seen@.contains(device),
            decreases origins.len() - k,
        {
            let ghost now = seen@;
            matched = matched || origins[k] == device;
            seen.push(origins[k]);
            assert(origins@.take(k + 1) =~= origins@.take(k as int).push(origins@[k as int]));
            assert(seen@ =~= before + origins@.take(k + 1));
            assert(seen@.contains(device) <==> now.contains(device) || origins@[k as int]
                == device) by {
                if now.contains(device) {
                    assert(seen@[now.index_of(device)] == device);
                }
                if origins@[k as int] == device {
                    assert(seen@[now.len() as int] == device);
                }
                if seen@.contains(device) {
                    let j = seen@.index_of(device);
                    if j < now.len() {
                        assert(now[j] == device);
                    }
                }
            }
            k += 1;
        }
        assert(origins@.take(k as int) =~= origins@);
        assert(inputs.take(i + 1).drop_last() =~= inputs.take(i as int));
        assert(inputs.take(i + 1).last().origins == origins@);
        i += 1;
    }
    assert(inputs.take(i as int) =~= inputs);
    if matched {
        return Ok(());
    }
    let list = list(&seen);
    let ghost parts = list@.map_values(|n: u32| text::fingerprint(n));
    let mut rendered = String::new();
    let mut k: usize = 0;
    assert(parts.take(0) =~= Seq::empty());
    while k < list.len()
        invariant
            k <= list.len(),
            parts == list@.map_values(|n: u32| text::fingerprint(n)),
            rendered@ == text::joined(parts.take(k as int), ", "@),
        decreases list.len() - k,
    {
        assert(parts.take(k + 1).drop_last() =~= parts.take(k as int));
        if k > 0 {
            rendered.append(", ");
        }
        let part = text::fingerprint_text(list[k]);
        rendered.append(part.as_str());
        assert(rendered@ =~= text::joined(parts.take(k + 1), ", "@));
        k += 1;
    }
    assert(parts.take(k as int) =~= parts);
    Err(
        JadeError::FingerprintMismatch { device: text::fingerprint_text(device), psbt: rendered },
    )
}

/// What the device altered of the previous output that input `index` spends.
pub open spec fn altered(before: InputContent, after: InputContent, index: nat) -> Option<
    Failure,
> {
    if before.witness_utxo != after.witness_utxo {
        Some(
            Failure::Psbt("device altered the witness UTXO of input "@ + text::decimal(index)),
        )
    } else if before.non_witness_utxo != after.non_witness_utxo {
        Some(
            Failure::Psbt(
                "device altered the previous transaction of input "@ + text::decimal(index),
            ),
        )
    } else {
        None
    }
}

/// The first alteration of a previous output.
pub open spec fn first_altered(sent: Seq<InputContent>, signed: Seq<InputContent>) -> Option<
    Failure,
>
    decreases sent.len(),
{
    if sent.len() == 0 {
        None
    } else {
        match first_altered(sent.drop_last(), signed.drop_last()) {
            Some(failure) => Some(failure),
            None => altered(sent.last(), signed.last(), (sent.len() - 1) as nat),
        }
    }
}

/// Whether an input has gained a signature: more partial or taproot script
/// signatures than before, or a final witness, a final script signature or a
/// taproot key signature where there was none.
pub open spec fn gained(before: InputContent, after: InputContent) -> bool {
    ||| after.partial_sigs > before.partial_sigs
    ||| after.final_script_witness && !before.final_script_witness
    ||| after.final_script_sig && !before.final_script_sig
    ||| after.tap_key_sig && !before.tap_key_sig
    ||| after.tap_script_sigs > before.tap_script_sigs
}

/// Whether `signed` is what a device may return for `sent`.
pub open spec fn signed_verified(sent: Content, signed: Content) -> Result<(), Failure> {
    if sent.unsigned_tx != signed.unsigned_tx {
        Err(Failure::Psbt("device returned a different unsigned transaction"@))
    } else if sent.inputs.len() != signed.inputs.len() || sent.outputs != signed.outputs {
        Err(Failure::Psbt("device changed the number of inputs or outputs"@))
    } else {
        match first_altered(sent.inputs, signed.inputs) {
            Some(failure) => Err(failure),
            None => if exists|i: int|
                0 <= i < sent.inputs.len() && gained(
                    #[trigger] sent.inputs[i],
                    signed.inputs[i],
                ) {
                Ok(())
            } else {
                Err(Failure::NothingSigned)
            },
        }
    }
}

/// Whether two byte strings are the same.
fn same_bytes(a: &Vec<u8>, b: &Vec<u8>) -> (r: bool)
    ensures
        r == (a@ == b@),
{
    let r = *a == *b;
    assert(r == (a@ =~= b@));
    r
}

/// Whether two optional byte strings are the same.
fn same_optional(a: &Option<Vec<u8>>, b: &Option<Vec<u8>>) -> (r: bool)
    ensures
        r == (optional(*a) == optional(*b)),
{
    match (a, b) {
        (Some(a), Some(b)) => same_bytes(a, b),
        (None, None) => true,
        _ => false,
    }
}

/// An [`JadeError::InvalidPsbt`] about input `index`.
fn about_input(details: &str, index: usize) -> (r: JadeError)
    ensures
        r@ == Failure::Psbt(details@ + text::decimal(index as nat)),
{
    let mut error_details = details.to_owned();
    text::push_decimal(&mut error_details, index as u64);
    JadeError::InvalidPsbt { error_details }
}

/// What is first in some of the inputs is first in all of them.
pub(crate) proof fn first_altered_stays(sent: Seq<InputContent>, signed: Seq<InputContent>, n: int)
    requires
        0 <= n <= sent.len() == signed.len(),
        first_altered(sent.take(n), signed.take(n)) is Some,
    ensures
        first_altered(sent, signed) == first_altered(sent.take(n), signed.take(n)),
    decreases sent.len() - n,
{
    if n == sent.len() {
        assert(sent.take(n) =~= sent);
        assert(signed.take(n) =~= signed);
    } else {
        assert(sent.take(n + 1).drop_last() =~= sent.take(n));
        assert(signed.take(n + 1).drop_last() =~= signed.take(n));
        first_altered_stays(sent, signed, n + 1);
    }
}

/// Checks what came back against what was sent.
pub fn verify_signed_psbt(sent: &PsbtFields, signed: &PsbtFields) -> (r: Result<(), JadeError>)
    ensures
        error::outcome(r) == signed_verified(sent@, signed@),
{
    if !same_bytes(&sent.unsigned_tx, &signed.unsigned_tx) {
        return Err(
            JadeError::InvalidPsbt {
                error_details: "device returned a different unsigned transaction".to_owned(),
            },
        );
    }
    if sent.inputs.len() != signed.inputs.len() || sent.outputs != signed.outputs {
        return Err(
            JadeError::InvalidPsbt {
                error_details: "device changed the number of inputs or outputs".to_owned(),
            },
        );
    }
    let ghost (before, after) = (sent@.inputs, signed@.inputs);
    let mut i: usize = 0;
    while i < sent.inputs.len()
        invariant
            i <= sent.inputs.len() == signed.inputs.len(),
            sent@.unsigned_tx == signed@.unsigned_tx,
            sent@.outputs == signed@.outputs,
            before == sent@.inputs,
            after == signed@.inputs,
            first_altered(before.take(i as int), after.take(i as int)) is None,
        decreases sent.inputs.len() - i,
    {
        assert(before.take(i + 1).drop_last() =~= before.take(i as int));
        assert(after.take(i + 1).drop_last() =~= after.take(i as int));
        if !same_optional(&sent.inputs[i].witness_utxo, &signed.inputs[i].witness_utxo) {
            proof {
                first_altered_stays(before, after, i + 1);
            }
            return Err(about_input("device altered the witness UTXO of input ", i));
        }
        if !same_optional(&sent.inputs[i].non_witness_utxo, &signed.inputs[i].non_witness_utxo) {
            proof {
                first_altered_stays(before, after, i + 1);
            }
            return Err(about_input("device altered the previous transaction of input ", i));
        }
        i += 1;
    }
    assert(before.take(i as int) =~= before);
    assert(after.take(i as int) =~= after);
    let mut k: usize = 0;
    while k < signed.inputs.len()
        invariant
            k <= sent.inputs.len() == signed.inputs.len(),
            sent@.unsigned_tx == signed@.unsigned_tx,
            sent@.outputs == signed@.outputs,
            before == sent@.inputs,
            after == signed@.inputs,
            first_altered(before, after) is None,
            forall|j: int| 0 <= j < k ==> !gained(#[trigger] before[j], after[j]),
        decreases signed.inputs.len() - k,
    {
        let input = &signed.inputs[k];
        let was = &sent.inputs[k];
        assert(before[k as int] == was@);
        if input.partial_sigs > was.partial_sigs || (input.final_script_witness
            && !was.final_script_witness) || (input.final_script_sig && !was.final_script_sig)
            || (input.tap_key_sig && !was.tap_key_sig) || input.tap_script_sigs
            > was.tap_script_sigs {
            assert(gained(before[k as int], after[k as int]));
            return Ok(());
        }
        k += 1;
    }
    Err(JadeError::NothingSigned)
}

/// A PSBT passes the sighash check if and only if every input requests a
/// supported sighash type, and otherwise the input that is named is the first
/// that does not.
pub proof fn sighashes_supported(inputs: Seq<InputContent>)
    ensures
        sighashes_checked(inputs) is Ok <==> forall|i: int|
            0 <= i < inputs.len() ==> supported(#[trigger] inputs[i].sighash_type),
        first_unsupported(inputs) matches Some(index) ==> {
            &&& index < inputs.len()
            &&& !supported(inputs[index as int].sighash_type)
            &&& forall|i: int| 0 <= i < index ==> supported(#[trigger] inputs[i].sighash_type)
        },
    decreases inputs.len(),
{
    if inputs.len() > 0 {
        let rest = inputs.drop_last();
        sighashes_supported(rest);
        assert forall|i: int| 0 <= i < rest.len() implies #[trigger] inputs[i] == rest[i] by {}
        match first_unsupported(rest) {
            Some(index) => {
                assert(inputs[index as int] == rest[index as int]);
            },
            None => {
                assert(forall|i: int|
                    0 <= i < rest.len() ==> supported(#[trigger] inputs[i].sighash_type));
            },
        }
    }
}

/// What a device returns is accepted if and only if it is about the same
/// unsigned transaction, has the same number of inputs and outputs, alters no
/// previous output, and holds a signature that was not there before.
pub proof fn accepted_signature(sent: Content, signed: Content)
    ensures
        signed_verified(sent, signed) is Ok <==> {
            &&& sent.unsigned_tx == signed.unsigned_tx
            &&& sent.inputs.len() == signed.inputs.len()
            &&& sent.outputs == signed.outputs
            &&& forall|i: int|
                0 <= i < sent.inputs.len() ==> {
                    &&& (#[trigger] sent.inputs[i]).witness_utxo == signed.inputs[i].witness_utxo
                    &&& sent.inputs[i].non_witness_utxo == signed.inputs[i].non_witness_utxo
                }
            &&& exists|i: int|
                0 <= i < sent.inputs.len() && gained(#[trigger] sent.inputs[i], signed.inputs[i])
        },
{
    if sent.inputs.len() == signed.inputs.len() {
        unaltered(sent.inputs, signed.inputs);
    }
}

/// No alteration is first if and only if there is none.
pub(crate) proof fn unaltered(sent: Seq<InputContent>, signed: Seq<InputContent>)
    requires
        sent.len() == signed.len(),
    ensures
        first_altered(sent, signed) is None <==> forall|i: int|
            0 <= i < sent.len() ==> {
                &&& (#[trigger] sent[i]).witness_utxo == signed[i].witness_utxo
                &&& sent[i].non_witness_utxo == signed[i].non_witness_utxo
            },
    decreases sent.len(),
{
    if sent.len() > 0 {
        let (a, b) = (sent.drop_last(), signed.drop_last());
        unaltered(a, b);
        assert forall|i: int| 0 <= i < a.len() implies #[trigger] sent[i] == a[i] && signed[i]
            == b[i] by {}
        if first_altered(a, b) is Some {
            let i = choose|i: int|
                0 <= i < a.len() && !((#[trigger] a[i]).witness_utxo == b[i].witness_utxo
                    && a[i].non_witness_utxo == b[i].non_witness_utxo);
            assert(sent[i] == a[i]);
        }
    }
}

/// A device that returns the PSBT as it was sent is reported to have signed
/// nothing.
pub proof fn echo_refused(sent: Content)
    ensures
        signed_verified(sent, sent) == Err::<(), Failure>(Failure::NothingSigned),
{
    unaltered(sent.inputs, sent.inputs);
}

/// The fingerprints that a refused PSBT is reported with are those of its key
/// origins, each once, in ascending order.
pub proof fn listing_complete(seen: Seq<u32>)
    ensures
        lists(listing(seen), seen),
    decreases seen.len(),
{
    if seen.len() == 0 {
        assert(lists(seen, seen));
    } else {
        let rest = seen.drop_last();
        let n = seen.last();
        listing_complete(rest);
        let l = listing(rest);
        assert(seen =~= rest.push(n));
        position_splits(l, n);
        let at = position(l, n);
        if at < l.len() && l[at] == n {
            listing_unchanged(l, rest, n, at);
            assert(lists(l, seen));
        } else {
            listing_extended(l, rest, n, at);
            assert(lists(l.insert(at, n), seen));
        }
    }
}

/// How many numbers of an ascending sequence are below `n`.
spec fn position(l: Seq<u32>, n: u32) -> int
    decreases l.len(),
{
    if l.len() == 0 {
        0
    } else if l.last() < n {
        l.len() as int
    } else {
        position(l.drop_last(), n)
    }
}

proof fn position_splits(l: Seq<u32>, n: u32)
    requires
        ascending(l),
    ensures
        0 <= position(l, n) <= l.len(),
        forall|i: int| 0 <= i < position(l, n) ==> l[i] < n,
        forall|i: int| position(l, n) <= i < l.len() ==> l[i] >= n,
    decreases l.len(),
{
    if l.len() > 0 && l.last() >= n {
        position_splits(l.drop_last(), n);
        assert forall|i: int| position(l, n) <= i < l.len() implies l[i] >= n by {
            if i < l.len() - 1 {
                assert(l[i] == l.drop_last()[i]);
            }
        }
        assert forall|i: int| 0 <= i < position(l, n) implies l[i] < n by {
            assert(l[i] == l.drop_last()[i]);
        }
    } else if l.len() > 0 {
        assert forall|i: int| 0 <= i < l.len() implies l[i] < n by {
            if i < l.len() - 1 {
                assert(l[i] < l[l.len() - 1]);
            }
        }
    }
}

} // verus!
