//! Fetching the account keys an import needs.

use vstd::prelude::*;
use vstd::slice::slice_to_vec;
use vstd::string::StringExecFns;

use crate::client::{self, Jade, Progress, Step};
use crate::error::{self, Failure, JadeError};
use crate::keys;
use crate::path::{self, HARDENED};
use crate::protocol::{self, Call, Datum, Reply, Request};
use crate::text;
use crate::types::{
    self, Account, Export, JadeAccount, JadeAccountExport, JadeAddressVariant, JadeNetwork,
};

verus! {

/// The path of an account in its usual notation.
pub open spec fn account_path(
    network: JadeNetwork,
    variant: JadeAddressVariant,
    account_index: u32,
) -> Seq<char> {
    "m/"@ + text::decimal(variant.account_purpose() as nat) + "'/"@ + text::decimal(
        network.coin() as nat,
    ) + "'/"@ + text::decimal(account_index as nat) + "'"@
}

/// The steps of an account's path: purpose, coin and account, all hardened.
pub open spec fn account_steps(
    network: JadeNetwork,
    variant: JadeAddressVariant,
    account_index: u32,
) -> Seq<u32> {
    seq![
        (HARDENED + variant.account_purpose()) as u32,
        (HARDENED + network.coin()) as u32,
        (HARDENED + account_index) as u32,
    ]
}

/// The request for an account's key. There is no account whose index takes more
/// than 31 bits.
pub open spec fn account_call(
    network: JadeNetwork,
    variant: JadeAddressVariant,
    account_index: u32,
) -> Result<Call, Failure> {
    if account_index < HARDENED {
        Ok(
            Call::GetXpub {
                network: network.name(),
                path: account_steps(network, variant, account_index),
            },
        )
    } else {
        Err(
            Failure::Path(
                path::derivation_path(account_path(network, variant, account_index))->Err_0,
            ),
        )
    }
}

/// The account whose key is in a reply: it must lie three steps below the
/// master key.
pub open spec fn account_of(
    network: JadeNetwork,
    variant: JadeAddressVariant,
    account_index: u32,
    reply: Result<Datum, Failure>,
) -> Result<Account, Failure> {
    match protocol::text_of(reply) {
        Err(failure) => Err(failure),
        Ok(xpub) => match keys::returned_key(xpub) {
            Err(failure) => Err(failure),
            Ok(key) => match keys::depth_checked(key.depth, 3) {
                Err(failure) => Err(failure),
                Ok(_) => Ok(
                    Account {
                        variant,
                        xpub,
                        derivation_path: account_path(network, variant, account_index),
                    },
                ),
            },
        },
    }
}

/// Facts about an account's path that the parser is asked with.
pub(crate) proof fn account_path_facts(
    network: JadeNetwork,
    variant: JadeAddressVariant,
    account_index: u32,
)
    ensures
        text::trimmed(account_path(network, variant, account_index)) == account_path(
            network,
            variant,
            account_index,
        ),
        account_index < HARDENED ==> path::path_text(
            account_steps(network, variant, account_index),
        ) == account_path(network, variant, account_index),
        account_index >= HARDENED ==> path::path_text_then(
            account_steps(network, variant, account_index).take(2),
            account_index as nat,
        ) == account_path(network, variant, account_index),
{
    reveal_strlit("m");
    reveal_strlit("/");
    reveal_strlit("'");
    reveal_strlit("m/");
    reveal_strlit("'/");
    let whole = account_path(network, variant, account_index);
    let steps = account_steps(network, variant, account_index);
    let none: Seq<u32> = Seq::empty();
    assert(steps.take(1).drop_last() =~= none);
    assert(steps.take(2).drop_last() =~= steps.take(1));
    assert(steps.drop_last() =~= steps.take(2));
    assert(path::path_text(none) == "m"@);
    let first = path::path_text(steps.take(1));
    assert(first =~= "m/"@ + text::decimal(variant.account_purpose() as nat) + "'"@);
    let second = path::path_text(steps.take(2));
    assert(second =~= "m/"@ + text::decimal(variant.account_purpose() as nat) + "'/"@
        + text::decimal(network.coin() as nat) + "'"@);
    if account_index < HARDENED {
        assert(path::path_text(steps) =~= whole);
    } else {
        assert(path::path_text_then(steps.take(2), account_index as nat) =~= whole);
    }
    assert(whole[0] == 'm');
    assert(whole.last() == '\'');
}

/// The path of an account in its usual notation.
fn account_path_text(
    network: JadeNetwork,
    variant: JadeAddressVariant,
    account_index: u32,
) -> (r: String)
    ensures
        r@ == account_path(network, variant, account_index),
{
    let mut out = "m/".to_owned();
    text::push_decimal(&mut out, variant.purpose() as u64);
    out.append("'/");
    text::push_decimal(&mut out, network.coin_type() as u64);
    out.append("'/");
    text::push_decimal(&mut out, account_index as u64);
    out.append("'");
    out
}

/// The request for an account's key.
fn account_request(
    network: JadeNetwork,
    variant: JadeAddressVariant,
    account_index: u32,
) -> (r: Result<Request, JadeError>)
    ensures
        error::outcome(r) == account_call(network, variant, account_index),
{
    let derivation_path = account_path_text(network, variant, account_index);
    proof {
        account_path_facts(network, variant, account_index);
    }
    match path::to_wire(derivation_path.as_str(), false) {
        Ok(steps) => Ok(Request::GetXpub { network: network.wire_name(), path: steps }),
        Err(error) => Err(error),
    }
}

/// The account whose key is in a reply.
fn read_account(
    network: JadeNetwork,
    variant: JadeAddressVariant,
    account_index: u32,
    reply: Reply,
) -> (r: Result<JadeAccount, JadeError>)
    requires
        account_index < HARDENED,
    ensures
        error::outcome(r) == account_of(network, variant, account_index, error::outcome(reply)),
{
    let xpub = match protocol::result_text(reply) {
        Ok(xpub) => xpub,
        Err(error) => return Err(error),
    };
    let derivation_path = account_path_text(network, variant, account_index);
    proof {
        account_path_facts(network, variant, account_index);
    }
    match keys::verify_xpub(xpub.as_str(), derivation_path.as_str()) {
        Ok(_) => Ok(JadeAccount { variant, xpub, derivation_path }),
        Err(error) => Err(error),
    }
}

/// An account export, under way.
pub struct AccountExport {
    network: JadeNetwork,
    account_index: u32,
    variants: Vec<JadeAddressVariant>,
    master_fingerprint: Option<String>,
    accounts: Vec<JadeAccount>,
}

/// The mathematical value of an [`AccountExport`].
#[verifier::ext_equal]
pub struct Exporting {
    pub network: JadeNetwork,
    pub account_index: u32,
    /// The variants to export.
    pub variants: Seq<JadeAddressVariant>,
    /// The master fingerprint, once it is known.
    pub master_fingerprint: Option<Seq<char>>,
    /// The accounts that are complete.
    pub accounts: Seq<Account>,
}

impl View for AccountExport {
    type V = Exporting;

    closed spec fn view(&self) -> Exporting {
        Exporting {
            network: self.network,
            account_index: self.account_index,
            variants: self.variants@,
            master_fingerprint: text::optional(self.master_fingerprint),
            accounts: types::account_values(self.accounts@),
        }
    }
}

/// Whether `accounts` are the first of the requested ones, in their order.
pub open spec fn accounts_for(
    accounts: Seq<Account>,
    network: JadeNetwork,
    account_index: u32,
    variants: Seq<JadeAddressVariant>,
) -> bool {
    &&& accounts.len() <= variants.len()
    &&& forall|i: int|
        0 <= i < accounts.len() ==> {
            &&& (#[trigger] accounts[i]).variant == variants[i]
            &&& accounts[i].derivation_path == account_path(network, variants[i], account_index)
            &&& keys::returned_key(accounts[i].xpub) matches Ok(key) && key.depth == 3
        }
}

/// How an export begins on a device that is unlocked for `unlocked`.
pub open spec fn export_begun(
    unlocked: Option<JadeNetwork>,
    network: JadeNetwork,
    account_index: u32,
    variants: Seq<JadeAddressVariant>,
) -> Result<Progress<Exporting, Export>, Failure> {
    match client::network_checked(unlocked, network) {
        Err(failure) => Err(failure),
        Ok(_) => Ok(
            Progress::Exchange {
                call: client::master_child_call(network),
                next: Exporting {
                    network,
                    account_index,
                    variants,
                    master_fingerprint: None,
                    accounts: Seq::empty(),
                },
            },
        ),
    }
}

impl Exporting {
    /// What comes next: the first account that is missing, or the end.
    pub open spec fn next(self) -> Result<Progress<Exporting, Export>, Failure> {
        if self.accounts.len() == self.variants.len() {
            Ok(
                Progress::Done {
                    result: Export {
                        master_fingerprint: self.master_fingerprint->0,
                        account_index: self.account_index,
                        accounts: self.accounts,
                    },
                },
            )
        } else {
            match account_call(
                self.network,
                self.variants[self.accounts.len() as int],
                self.account_index,
            ) {
                Ok(call) => Ok(Progress::Exchange { call, next: self }),
                Err(failure) => Err(failure),
            }
        }
    }

    /// How the export goes on after a reply.
    pub open spec fn after(self, reply: Result<Datum, Failure>) -> Result<
        Progress<Exporting, Export>,
        Failure,
    > {
        match self.master_fingerprint {
            None => match client::fingerprint_text_of(reply) {
                Err(failure) => Err(failure),
                Ok(fingerprint) => (Exporting {
                    master_fingerprint: Some(fingerprint),
                    ..self
                }).next(),
            },
            Some(_) => match account_of(
                self.network,
                self.variants[self.accounts.len() as int],
                self.account_index,
                reply,
            ) {
                Err(failure) => Err(failure),
                Ok(account) => (Exporting {
                    accounts: self.accounts.push(account),
                    ..self
                }).next(),
            },
        }
    }
}

impl Jade {
    /// Fetches the account keys an import needs, in one pass over the link.
    ///
    /// Each key costs a round trip, which is slow over Bluetooth, so batching
    /// them here keeps the caller from reacquiring the device between each one.
    /// No user confirmation is involved.
    pub fn account_export(
        &self,
        network: JadeNetwork,
        account_index: u32,
        variants: &[JadeAddressVariant],
    ) -> (r: Result<Step<AccountExport, JadeAccountExport>, JadeError>)
        ensures
            error::outcome(r) == export_begun(
                self@.unlocked_network,
                network,
                account_index,
                variants@,
            ),
    {
        match self.master_fingerprint(network) {
            Ok(request) => {
                let next = AccountExport {
                    network,
                    account_index,
                    variants: slice_to_vec(variants),
                    master_fingerprint: None,
                    accounts: Vec::new(),
                };
                assert(next@.accounts =~= Seq::empty());
                Ok(Step::Exchange { request, next })
            },
            Err(error) => Err(error),
        }
    }
}

impl AccountExport {
    /// What is complete is what was asked for first, and while accounts are
    /// being fetched one is missing.
    #[verifier::type_invariant]
    spec fn consistent(self) -> bool {
        &&& accounts_for(self@.accounts, self.network, self.account_index, self.variants@)
        &&& self.master_fingerprint is None ==> self.accounts.len() == 0
        &&& self.master_fingerprint is Some ==> self.account_index < HARDENED
            && self.accounts.len() < self.variants.len()
    }

    /// Goes on to the first account that is missing, or to the end.
    fn proceed(
        network: JadeNetwork,
        account_index: u32,
        variants: Vec<JadeAddressVariant>,
        master_fingerprint: String,
        accounts: Vec<JadeAccount>,
    ) -> (r: Result<Step<AccountExport, JadeAccountExport>, JadeError>)
        requires
            accounts_for(
                types::account_values(accounts@),
                network,
                account_index,
                variants@,
            ),
        ensures
            error::outcome(r) == (Exporting {
                network,
                account_index,
                variants: variants@,
                master_fingerprint: Some(master_fingerprint@),
                accounts: types::account_values(accounts@),
            }).next(),
    {
        if accounts.len() == variants.len() {
            return Ok(
                Step::Done {
                    result: JadeAccountExport { master_fingerprint, account_index, accounts },
                },
            );
        }
        match account_request(network, variants[accounts.len()], account_index) {
            Ok(request) => Ok(
                Step::Exchange {
                    request,
                    next: AccountExport {
                        network,
                        account_index,
                        variants,
                        master_fingerprint: Some(master_fingerprint),
                        accounts,
                    },
                },
            ),
            Err(error) => Err(error),
        }
    }

    /// Takes the reply to the last request.
    ///
    /// A complete export has one account for each requested variant, in their
    /// order, each at its account path and with a key three steps below the
    /// master key.
    pub fn on_reply(self, reply: Reply) -> (r: Result<
        Step<AccountExport, JadeAccountExport>,
        JadeError,
    >)
        ensures
            error::outcome(r) == self@.after(error::outcome(reply)),
            r matches Ok(Step::Done { result }) ==> {
                &&& result@.accounts.len() == self@.variants.len()
                &&& accounts_for(
                    result@.accounts,
                    self@.network,
                    self@.account_index,
                    self@.variants,
                )
            },
    {
        proof {
            use_type_invariant(&self);
        }
        let AccountExport { network, account_index, variants, master_fingerprint, accounts } = self;
        match master_fingerprint {
            None => match client::read_fingerprint_text(reply) {
                Ok(fingerprint) => AccountExport::proceed(
                    network,
                    account_index,
                    variants,
                    fingerprint,
                    accounts,
                ),
                Err(error) => Err(error),
            },
            Some(fingerprint) => {
                let variant = variants[accounts.len()];
                let account = match read_account(network, variant, account_index, reply) {
                    Ok(account) => account,
                    Err(error) => return Err(error),
                };
                let ghost before = types::account_values(accounts@);
                let mut accounts = accounts;
                accounts.push(account);
                assert(types::account_values(accounts@) =~= before.push(account@));
                AccountExport::proceed(network, account_index, variants, fingerprint, accounts)
            },
        }
    }
}

/// Where an export stands after `replies`. Once it is complete or has failed it
/// takes no more.
pub open spec fn export_after(
    unlocked: Option<JadeNetwork>,
    network: JadeNetwork,
    account_index: u32,
    variants: Seq<JadeAddressVariant>,
    replies: Seq<Result<Datum, Failure>>,
) -> Result<Progress<Exporting, Export>, Failure>
    decreases replies.len(),
{
    if replies.len() == 0 {
        export_begun(unlocked, network, account_index, variants)
    } else {
        let before = export_after(unlocked, network, account_index, variants, replies.drop_last());
        match before {
            Ok(Progress::Exchange { next, .. }) => next.after(replies.last()),
            _ => before,
        }
    }
}

/// Whether `export` is what the replies amount to: the master fingerprint from
/// the first, and one account from each that follows.
pub open spec fn exported(
    export: Export,
    network: JadeNetwork,
    account_index: u32,
    variants: Seq<JadeAddressVariant>,
    replies: Seq<Result<Datum, Failure>>,
) -> bool {
    &&& replies.len() >= 1 + variants.len()
    &&& client::fingerprint_text_of(replies[0]) == Ok::<Seq<char>, Failure>(
        export.master_fingerprint,
    )
    &&& export.account_index == account_index
    &&& export.accounts.len() == variants.len()
    &&& forall|i: int|
        0 <= i < variants.len() ==> account_of(network, variants[i], account_index, replies[i + 1])
            == Ok::<Account, Failure>(#[trigger] export.accounts[i])
}

/// Whether an export is under way as `replies` had it: it waits for the account
/// after those that they hold.
spec fn under_way(
    progress: Progress<Exporting, Export>,
    network: JadeNetwork,
    account_index: u32,
    variants: Seq<JadeAddressVariant>,
    replies: Seq<Result<Datum, Failure>>,
) -> bool {
    let held = (replies.len() - 1) as nat;
    &&& progress matches Progress::Exchange { call, next }
    &&& 0 < replies.len() <= variants.len()
    &&& account_call(network, variants[held as int], account_index) == Ok::<Call, Failure>(call)
    &&& next.network == network
    &&& next.account_index == account_index
    &&& next.variants == variants
    &&& next.master_fingerprint matches Some(fingerprint)
    &&& exported(
        Export { master_fingerprint: fingerprint, account_index, accounts: next.accounts },
        network,
        account_index,
        variants.take(held as int),
        replies,
    )
}

/// After its first reply an export has failed, is under way or is complete.
proof fn export_stands(
    unlocked: Option<JadeNetwork>,
    network: JadeNetwork,
    account_index: u32,
    variants: Seq<JadeAddressVariant>,
    replies: Seq<Result<Datum, Failure>>,
)
    requires
        replies.len() > 0,
    ensures
        export_after(unlocked, network, account_index, variants, replies) matches Ok(progress) ==> {
            ||| under_way(progress, network, account_index, variants, replies)
            ||| progress matches Progress::Done { result } && exported(
                result,
                network,
                account_index,
                variants,
                replies,
            )
        },
    decreases replies.len(),
{
    let earlier = replies.drop_last();
    if earlier.len() > 0 {
        export_stands(unlocked, network, account_index, variants, earlier);
        if let Ok(before) = export_after(unlocked, network, account_index, variants, earlier) {
            if before is Exchange {
                let held = variants.take(earlier.len() - 1);
                let now = variants.take(earlier.len() as int);
                assert(now =~= held.push(variants[earlier.len() - 1]));
            }
        }
    }
    assert(variants.take(variants.len() as int) =~= variants);
}

/// A complete export holds what the replies held: the master fingerprint of the
/// device and, for each requested variant in turn, the key in the reply to the
/// request for that account's path.
pub proof fn export_answers_requests(
    unlocked: Option<JadeNetwork>,
    network: JadeNetwork,
    account_index: u32,
    variants: Seq<JadeAddressVariant>,
    replies: Seq<Result<Datum, Failure>>,
)
    ensures
        export_after(unlocked, network, account_index, variants, replies) matches Ok(
            Progress::Done { result },
        ) ==> {
            &&& exported(result, network, account_index, variants, replies)
            &&& forall|i: int|
                0 <= i < variants.len() ==> {
                    &&& export_after(
                        unlocked,
                        network,
                        account_index,
                        variants,
                        #[trigger] replies.take(i + 1),
                    ) matches Ok(Progress::Exchange { call, .. })
                    &&& call == (Call::GetXpub {
                        network: network.name(),
                        path: account_steps(network, variants[i], account_index),
                    })
                }
        },
    decreases replies.len(),
{
    if replies.len() > 0 {
        export_stands(unlocked, network, account_index, variants, replies);
        if let Ok(Progress::Done { .. }) = export_after(
            unlocked,
            network,
            account_index,
            variants,
            replies,
        ) {
            assert forall|i: int| 0 <= i < variants.len() implies {
                &&& export_after(
                    unlocked,
                    network,
                    account_index,
                    variants,
                    #[trigger] replies.take(i + 1),
                ) matches Ok(Progress::Exchange { call, .. })
                &&& call == (Call::GetXpub {
                    network: network.name(),
                    path: account_steps(network, variants[i], account_index),
                })
            } by {
                export_stands(unlocked, network, account_index, variants, replies.take(i + 1));
                failure_stays(unlocked, network, account_index, variants, replies, i + 1);
            }
        }
    }
}

/// An export that failed does not recover.
proof fn failure_stays(
    unlocked: Option<JadeNetwork>,
    network: JadeNetwork,
    account_index: u32,
    variants: Seq<JadeAddressVariant>,
    replies: Seq<Result<Datum, Failure>>,
    n: int,
)
    requires
        0 <= n <= replies.len(),
    ensures
        export_after(unlocked, network, account_index, variants, replies) is Ok ==> export_after(
            unlocked,
            network,
            account_index,
            variants,
            replies.take(n),
        ) is Ok,
    decreases replies.len(),
{
    if n < replies.len() {
        assert(replies.drop_last().take(n) =~= replies.take(n));
        failure_stays(unlocked, network, account_index, variants, replies.drop_last(), n);
    } else {
        assert(replies.take(n) =~= replies);
    }
}

/// An export of accounts that exist, on a network that suits the device,
/// completes as soon as there is a master fingerprint and a usable key for each
/// variant, with those and nothing else.
pub proof fn export_completes(
    unlocked: Option<JadeNetwork>,
    network: JadeNetwork,
    variants: Seq<JadeAddressVariant>,
    replies: Seq<Result<Datum, Failure>>,
    export: Export,
)
    requires
        client::network_checked(unlocked, network) is Ok,
        variants.len() > 0 ==> export.account_index < HARDENED,
        replies.len() == 1 + variants.len(),
        exported(export, network, export.account_index, variants, replies),
    ensures
        export_after(unlocked, network, export.account_index, variants, replies) == Ok::<
            Progress<Exporting, Export>,
            Failure,
        >(Progress::Done { result: export }),
{
    export_fills(unlocked, network, variants, replies, export, variants.len());
    assert(replies.take(replies.len() as int) =~= replies);
    assert(export.accounts.take(variants.len() as int) =~= export.accounts);
}

/// Where such an export stands after the replies for `n` accounts.
proof fn export_fills(
    unlocked: Option<JadeNetwork>,
    network: JadeNetwork,
    variants: Seq<JadeAddressVariant>,
    replies: Seq<Result<Datum, Failure>>,
    export: Export,
    n: nat,
)
    requires
        client::network_checked(unlocked, network) is Ok,
        variants.len() > 0 ==> export.account_index < HARDENED,
        replies.len() == 1 + variants.len(),
        exported(export, network, export.account_index, variants, replies),
        n <= variants.len(),
    ensures
        export_after(
            unlocked,
            network,
            export.account_index,
            variants,
            replies.take((n + 1) as int),
        ) == (Exporting {
            network,
            account_index: export.account_index,
            variants,
            master_fingerprint: Some(export.master_fingerprint),
            accounts: export.accounts.take(n as int),
        }).next(),
    decreases n,
{
    let taken = replies.take((n + 1) as int);
    let before = export_after(
        unlocked,
        network,
        export.account_index,
        variants,
        replies.take(n as int),
    );
    assert(taken.drop_last() =~= replies.take(n as int));
    assert(taken.last() == replies[n as int]);
    if n == 0 {
        assert(before == export_begun(unlocked, network, export.account_index, variants));
        assert(export.accounts.take(0) =~= Seq::empty());
    } else {
        export_fills(unlocked, network, variants, replies, export, (n - 1) as nat);
        let held = export.accounts.take(n - 1);
        assert(before matches Ok(Progress::Exchange { next, .. }) && next.accounts == held);
        assert(account_of(network, variants[n - 1], export.account_index, taken.last()) == Ok::<
            Account,
            Failure,
        >(export.accounts[n - 1]));
        assert(export.accounts.take(n as int) =~= held.push(export.accounts[n - 1]));
    }
}

/// Exporting one list of variants and then another gives, put together, what
/// exporting both at once gives.
pub proof fn exports_join(
    unlocked: Option<JadeNetwork>,
    network: JadeNetwork,
    account_index: u32,
    first: Seq<JadeAddressVariant>,
    first_replies: Seq<Result<Datum, Failure>>,
    second: Seq<JadeAddressVariant>,
    second_replies: Seq<Result<Datum, Failure>>,
)
    requires
        first_replies.len() == 1 + first.len(),
        second_replies.len() == 1 + second.len(),
    ensures
        export_after(unlocked, network, account_index, first, first_replies) matches Ok(
            Progress::Done { result: a },
        ) ==> (export_after(unlocked, network, account_index, second, second_replies) matches Ok(
            Progress::Done { result: b },
        ) ==> export_after(
            unlocked,
            network,
            account_index,
            first + second,
            first_replies + second_replies.drop_first(),
        ) == Ok::<Progress<Exporting, Export>, Failure>(
            Progress::Done { result: Export { accounts: a.accounts + b.accounts, ..a } },
        )),
{
    let none: Seq<Result<Datum, Failure>> = Seq::empty();
    if let Ok(Progress::Done { result: a }) = export_after(
        unlocked,
        network,
        account_index,
        first,
        first_replies,
    ) {
        if let Ok(Progress::Done { result: b }) = export_after(
            unlocked,
            network,
            account_index,
            second,
            second_replies,
        ) {
            export_answers_requests(unlocked, network, account_index, first, first_replies);
            export_answers_requests(unlocked, network, account_index, second, second_replies);
            failure_stays(unlocked, network, account_index, first, first_replies, 0);
            assert(first_replies.take(0) =~= none);
            if first.len() > 0 {
                export_stands(unlocked, network, account_index, first, first_replies.take(1));
                failure_stays(unlocked, network, account_index, first, first_replies, 1);
            }
            if second.len() > 0 {
                export_stands(unlocked, network, account_index, second, second_replies.take(1));
                failure_stays(unlocked, network, account_index, second, second_replies, 1);
            }
            let variants = first + second;
            let replies = first_replies + second_replies.drop_first();
            let export = Export { accounts: a.accounts + b.accounts, ..a };
            assert forall|i: int| 0 <= i < variants.len() implies account_of(
                network,
                variants[i],
                account_index,
                replies[i + 1],
            ) == Ok::<Account, Failure>(#[trigger] export.accounts[i]) by {
                if i < first.len() {
                    assert(export.accounts[i] == a.accounts[i]);
                } else {
                    assert(export.accounts[i] == b.accounts[i - first.len()]);
                    assert(replies[i + 1] == second_replies[i - first.len() + 1]);
                }
            }
            export_completes(unlocked, network, variants, replies, export);
        }
    }
}

} // verus!
