//! What holds of stores, their networks and their notices.

use crate::api::btcpay_authorize::{
    is_disconnection, is_finish_step, is_initiator, is_recorded_state, is_start_step,
    Disconnection, DisconnectReq, FinishFacts, FinishStep, StartConnectReq, StartFacts, StartStep,
};
use crate::btcpay::client::{
    btc_text, eight_digits, is_network_step, is_onchain, is_outcome, is_record, onchain_id,
    reply_step, AddressReply, Call, NetworkFacts, NetworkStep, ProviderHttpError, Recorded,
};
use crate::btcpay::config::{cutoff_text, is_consumed, AuthorizeState, StoredState};
use crate::btcpay::network::{network_of, BitcoinNetwork};
use crate::btcpay::webhook::{signature_verdict, SignatureError, WebhookEvent};
use crate::clock::{rfc3339_text, Moment};
use crate::codec::{hex_bytes, hmac_sha256};
use crate::error::AppError;
use crate::laws::texts::{numbers_read_back, value_of};
use crate::models::{MerchantProfile, PaymentProviderRow};
use crate::text::{ascii_upper, nat_text, trimmed, uppercased};
use vstd::prelude::*;
use vstd::utf8::encode_utf8;

verus! {

// ---------- networks ----------

/// Is a character this letter, in either case?
pub open spec fn is_letter(c: char, small: char, capital: char) -> bool {
    c == small || c == capital
}

/// Does an address begin with `bc1`?
pub open spec fn begins_bc1(s: Seq<char>) -> bool {
    s.len() >= 3 && is_letter(s[0], 'b', 'B') && is_letter(s[1], 'c', 'C') && s[2] == '1'
}

/// Does an address begin with `tb1`?
pub open spec fn begins_tb1(s: Seq<char>) -> bool {
    s.len() >= 3 && is_letter(s[0], 't', 'T') && is_letter(s[1], 'b', 'B') && s[2] == '1'
}

/// Does an address begin with `bcrt1`?
pub open spec fn begins_bcrt1(s: Seq<char>) -> bool {
    s.len() >= 5 && is_letter(s[0], 'b', 'B') && is_letter(s[1], 'c', 'C') && is_letter(
        s[2],
        'r',
        'R',
    ) && is_letter(s[3], 't', 'T') && s[4] == '1'
}

/// Is a text made of letters and digits other than `0`, `O`, `I` and `l`, as long
/// as an address is?
pub open spec fn is_old_address(s: Seq<char>) -> bool {
    &&& 26 <= encode_utf8(s).len() <= 35
    &&& forall|i: int|
        0 <= i < s.len() ==> ('1' <= #[trigger] s[i] <= '9' || ('A' <= s[i] <= 'Z' && s[i] != 'I'
            && s[i] != 'O') || ('a' <= s[i] <= 'z' && s[i] != 'l'))
}

proof fn lemma_lower(s: Seq<char>, i: int, small: char, capital: char)
    requires
        0 <= i < s.len(),
        'a' <= small <= 'z',
        capital as u32 + 32 == small as u32,
    ensures
        crate::text::lowercased(s)[i] == small <==> is_letter(s[i], small, capital),
{
    let c = s[i];
    assert(crate::text::lowercased(s)[i] == crate::text::ascii_lower(c));
    if 'A' <= c <= 'Z' {
        assert(crate::text::ascii_lower(c) as u32 == c as u32 + 32);
        if crate::text::ascii_lower(c) == small {
            assert(c as u32 == capital as u32);
        }
    }
}

proof fn lemma_prefixes(s: Seq<char>)
    ensures
        begins_bc1(s) <==> crate::text::begins_with(crate::text::lowercased(s), "bc1"@),
        begins_tb1(s) <==> crate::text::begins_with(crate::text::lowercased(s), "tb1"@),
        begins_bcrt1(s) <==> crate::text::begins_with(crate::text::lowercased(s), "bcrt1"@),
{
    reveal_strlit("bc1");
    reveal_strlit("tb1");
    reveal_strlit("bcrt1");
    let l = crate::text::lowercased(s);
    if s.len() >= 3 {
        lemma_lower(s, 0, 'b', 'B');
        lemma_lower(s, 0, 't', 'T');
        lemma_lower(s, 1, 'c', 'C');
        lemma_lower(s, 1, 'b', 'B');
        let p = l.subrange(0, 3);
        assert(p[0] == l[0] && p[1] == l[1] && p[2] == l[2]);
        assert(l[2] == '1' <==> s[2] == '1');
        if begins_bc1(s) {
            assert(p =~= "bc1"@);
        }
        if begins_tb1(s) {
            assert(p =~= "tb1"@);
        }
    }
    if s.len() >= 5 {
        lemma_lower(s, 2, 'r', 'R');
        lemma_lower(s, 3, 't', 'T');
        let p = l.subrange(0, 5);
        assert(p[0] == l[0] && p[1] == l[1] && p[2] == l[2] && p[3] == l[3] && p[4] == l[4]);
        assert(l[4] == '1' <==> s[4] == '1');
        if begins_bcrt1(s) {
            assert(p =~= "bcrt1"@);
        }
    }
}

/// An address tells its network by how it begins: `bc1`, `1` or `3` on the main
/// one, `tb1`, `m`, `n` or `2` on a test one, `bcrt1` on a private one. What is no
/// address tells none.
pub proof fn addresses_tell_their_network(addr: Seq<char>)
    ensures
        ({
            let s = trimmed(addr);
            &&& begins_bc1(s) ==> network_of(addr) == Some(BitcoinNetwork::Mainnet)
            &&& begins_tb1(s) ==> network_of(addr) == Some(BitcoinNetwork::Testnet)
            &&& begins_bcrt1(s) ==> network_of(addr) == Some(BitcoinNetwork::Regtest)
            &&& !begins_bc1(s) && !begins_tb1(s) && !begins_bcrt1(s) ==> {
                &&& s.len() == 0 || !is_old_address(s) ==> network_of(addr) is None
                &&& s.len() > 0 && is_old_address(s) && (s[0] == '1' || s[0] == '3') ==> network_of(
                    addr,
                ) == Some(BitcoinNetwork::Mainnet)
                &&& s.len() > 0 && is_old_address(s) && (s[0] == 'm' || s[0] == 'n' || s[0] == '2')
                    ==> network_of(addr) == Some(BitcoinNetwork::Testnet)
                &&& s.len() > 0 && s[0] != '1' && s[0] != '3' && s[0] != 'm' && s[0] != 'n' && s[0]
                    != '2' ==> network_of(addr) is None
            }
        }),
{
    let s = trimmed(addr);
    lemma_prefixes(s);
    assert(crate::btcpay::network::is_base58_address(s) <==> is_old_address(s)) by {
        if is_old_address(s) {
            assert forall|i: int| 0 <= i < s.len() implies crate::btcpay::network::is_base58_char(
                #[trigger] s[i],
            ) by {}
        }
        if crate::btcpay::network::is_base58_address(s) {
            assert forall|i: int| 0 <= i < s.len() implies ('1' <= #[trigger] s[i] <= '9' || ('A'
                <= s[i] <= 'Z' && s[i] != 'I' && s[i] != 'O') || ('a' <= s[i] <= 'z' && s[i]
                != 'l')) by {
                assert(crate::btcpay::network::is_base58_char(s[i]));
            }
        }
    }
}

/// A store's network is that of an address of its bitcoin on the chain; whatever
/// keeps that from being told leaves it unknown.
pub proof fn stores_tell_their_network(facts: NetworkFacts, step: NetworkStep)
    requires
        is_network_step(facts, step),
    ensures
        facts.methods is None <==> step is ListMethods,
        facts.methods matches Some(None) ==> step == (NetworkStep::Network { network: None }),
        facts.methods matches Some(Some(ids)) ==> match onchain_id(ids@) {
            None => step == (NetworkStep::Network { network: None }),
            Some(id) => match facts.reply {
                None => step == (NetworkStep::GetAddress { method: id }),
                Some(AddressReply::Unreachable) => step is Fail,
                Some(AddressReply::Unusable) => step == (NetworkStep::Network { network: None }),
                Some(AddressReply::Body { address }) => {
                    &&& address is None ==> step == (NetworkStep::Network { network: None })
                    &&& address is Some ==> step == (NetworkStep::Network {
                        network: network_of(address->0@),
                    })
                },
            },
        },
{
}

/// The method that is asked for an address is the first that is bitcoin on the
/// chain, and no other kind.
pub proof fn the_first_method_on_the_chain_counts(ids: Seq<Option<String>>, k: int)
    requires
        0 <= k < ids.len(),
        ids[k] is Some,
        is_onchain(ids[k]->0@),
        forall|j: int|
            0 <= j < k ==> (#[trigger] ids[j]) is None || !is_onchain(ids[j]->0@),
    ensures
        onchain_id(ids) == ids[k],
    decreases k,
{
    if k > 0 {
        assert(ids[0] is None || !is_onchain(ids[0]->0@));
        let rest = ids.drop_first();
        assert(rest[k - 1] == ids[k]);
        assert forall|j: int| 0 <= j < k - 1 implies (#[trigger] rest[j]) is None || !is_onchain(
            rest[j]->0@,
        ) by {
            assert(rest[j] == ids[j + 1]);
        }
        the_first_method_on_the_chain_counts(rest, k - 1);
    }
}

/// Two names stand for bitcoin on the chain, in either case.
pub proof fn two_names_are_on_the_chain(id: Seq<char>)
    ensures
        is_onchain(id) <==> {
            ||| id.len() == 3 && is_letter(id[0], 'b', 'B') && is_letter(id[1], 't', 'T')
                && is_letter(id[2], 'c', 'C')
            ||| id.len() == 9 && is_letter(id[0], 'b', 'B') && is_letter(id[1], 't', 'T')
                && is_letter(id[2], 'c', 'C') && id[3] == '-' && is_letter(id[4], 'c', 'C')
                && is_letter(id[5], 'h', 'H') && is_letter(id[6], 'a', 'A') && is_letter(
                id[7],
                'i',
                'I',
            ) && is_letter(id[8], 'n', 'N')
        },
{
    reveal_strlit("BTC");
    reveal_strlit("BTC-CHAIN");
    let up = uppercased(id);
    assert(up.len() == id.len());
    assert forall|i: int| 0 <= i < id.len() implies #[trigger] up[i] == ascii_upper(id[i]) by {}
    if id.len() == 3 {
        assert(up[0] == ascii_upper(id[0]) && up[1] == ascii_upper(id[1]) && up[2] == ascii_upper(
            id[2],
        ));
        assert(up == "BTC"@ <==> up[0] == 'B' && up[1] == 'T' && up[2] == 'C') by {
            if up[0] == 'B' && up[1] == 'T' && up[2] == 'C' {
                assert(up =~= "BTC"@);
            }
        }
    }
    if id.len() == 9 {
        assert(up == "BTC-CHAIN"@ <==> up[0] == 'B' && up[1] == 'T' && up[2] == 'C' && up[3] == '-'
            && up[4] == 'C' && up[5] == 'H' && up[6] == 'A' && up[7] == 'I' && up[8] == 'N') by {
            if up[0] == 'B' && up[1] == 'T' && up[2] == 'C' && up[3] == '-' && up[4] == 'C'
                && up[5] == 'H' && up[6] == 'A' && up[7] == 'I' && up[8] == 'N' {
                assert(up =~= "BTC-CHAIN"@);
            }
        }
    }
}

// ---------- replies ----------

/// A reply from 200 to 299 is a success; where something is to be removed, so is
/// the reply that it is not there.
pub proof fn replies_are_read_by_status(call: Call, status: u16)
    ensures
        reply_step(call, status) is Accept <==> (200 <= status <= 299 || (status == 404 && (call
            is DeleteWebhook || call is RevokeApiKey))),
        reply_step(call, status) is FailWithoutBody ==> call is GetInvoice,
        call is GetInvoice && !(200 <= status <= 299) ==> reply_step(call, status)
            is FailWithoutBody,
{
}

/// Every status that comes is told to the provider's health as it is, for the
/// calls of a connected store; where none came nothing is told.
pub proof fn statuses_are_recorded_as_they_come(
    call: Call,
    status: Option<u16>,
    r: Option<Recorded>,
)
    requires
        is_record(call, status, r),
    ensures
        status is None ==> r is None,
        status is Some && (call is CreateInvoice || call is GetInvoice || call
            is PayLightningInvoice) ==> r is Some && r->0.status == status->0,
        call is ListStores || call is CreateWebhook || call is DeleteWebhook || call is RevokeApiKey
            || call is ListPaymentMethods ==> r is None,
        r is Some && call is CreateInvoice ==> r->0.label@ == "btcpay.create_invoice"@,
        r is Some && call is GetInvoice ==> r->0.label@ == "btcpay.get_invoice"@,
        r is Some && call is PayLightningInvoice ==> r->0.label@
            == "btcpay.pay_lightning_invoice"@,
{
}

/// A call fails exactly where its status says so, and the error tells the call, the
/// status and, but where an invoice is looked up, what was replied.
pub proof fn failures_tell_their_status(
    call: Call,
    status: u16,
    words: Seq<char>,
    body: Seq<char>,
    r: Result<(), ProviderHttpError>,
)
    requires
        is_outcome(call, status, words, body, r),
    ensures
        r is Ok <==> 200 <= status <= 299,
        r is Err ==> r->Err_0.status == status,
        r is Err && call is CreateInvoice ==> r->Err_0.message@
            == "BTCPay "@ + "create-invoice"@ + " returned "@ + words + ": "@ + body,
        r is Err && call is PayLightningInvoice ==> r->Err_0.message@
            == "BTCPay "@ + "pay-lightning-invoice"@ + " returned "@ + words + ": "@ + body,
        r is Err && call is GetInvoice ==> r->Err_0.message@
            == "BTCPay "@ + "get-invoice"@ + " returned "@ + words,
{
}

// ---------- amounts ----------

spec fn ten_to(k: nat) -> nat
    decreases k,
{
    if k == 0 {
        1
    } else {
        10 * ten_to((k - 1) as nat)
    }
}

proof fn lemma_digits(n: nat, k: nat)
    requires
        k >= 1,
        n < ten_to(k),
    ensures
        nat_text(n).len() <= k,
    decreases k,
{
    if n >= 10 {
        if k == 1 {
            assert(ten_to(1) == 10 * ten_to(0));
            assert(false);
        }
        assert(ten_to(k) == 10 * ten_to((k - 1) as nat));
        assert(n / 10 < ten_to((k - 1) as nat)) by (nonlinear_arith)
            requires
                n < 10 * ten_to((k - 1) as nat),
        ;
        lemma_digits(n / 10, (k - 1) as nat);
    }
}

proof fn lemma_padding(zeros: nat, t: Seq<char>)
    ensures
        value_of(Seq::new(zeros, |i: int| '0') + t) == value_of(t),
    decreases zeros + t.len(),
{
    let z = Seq::new(zeros, |i: int| '0');
    let all = z + t;
    if t.len() > 0 {
        lemma_padding(zeros, t.drop_last());
        assert(all.drop_last() =~= z + t.drop_last());
    } else if zeros > 0 {
        let y = Seq::new((zeros - 1) as nat, |i: int| '0');
        lemma_padding((zeros - 1) as nat, t);
        assert(all =~= z);
        assert(all.drop_last() =~= y + t);
        assert(all.last() == '0');
    } else {
        assert(all =~= t);
    }
}

/// An amount in bitcoin is its whole coins, a point, and eight digits of what is
/// left: together they are the sats again.
pub proof fn amounts_are_exact(sats: nat)
    ensures
        ({
            let coins = sats / 100_000_000;
            let rest = sats % 100_000_000;
            &&& btc_text(sats as int) == nat_text(coins) + "."@ + eight_digits(rest)
            &&& eight_digits(rest).len() == 8
            &&& value_of(nat_text(coins)) * 100_000_000 + value_of(eight_digits(rest)) == sats
        }),
{
    let coins = sats / 100_000_000;
    let rest = sats % 100_000_000;
    numbers_read_back(coins);
    numbers_read_back(rest);
    assert(ten_to(8) == 100_000_000) by {
        reveal_with_fuel(ten_to, 9);
    }
    lemma_digits(rest, 8);
    lemma_padding((8 - nat_text(rest).len()) as nat, nat_text(rest));
}

// ---------- notices ----------

/// A notice is believed exactly where its header carries, in hexadecimal behind
/// `sha256=`, the tag of the body under the secret.
pub proof fn notices_need_the_right_tag(
    secret: Seq<char>,
    header: Seq<char>,
    hex: Seq<char>,
    body: Seq<u8>,
)
    ensures
        header == "sha256="@ + hex ==> {
            &&& hex_bytes(hex) is None ==> signature_verdict(secret, header, body) == Err::<
                (),
                SignatureError,
            >(SignatureError::NotHex)
            &&& signature_verdict(secret, header, body) is Ok <==> hex_bytes(hex) == Some(
                hmac_sha256(encode_utf8(secret), body),
            )
        },
        (forall|h: Seq<char>| header != #[trigger] ("sha256="@ + h)) ==> signature_verdict(
            secret,
            header,
            body,
        ) == Err::<(), SignatureError>(SignatureError::NoPrefix),
{
    let p = "sha256="@;
    if header == p + hex {
        assert(header.subrange(0, p.len() as int) =~= p);
        assert(header.subrange(p.len() as int, header.len() as int) =~= hex);
    }
    if crate::text::after_prefix(header, p) is Some {
        let h = crate::text::after_prefix(header, p)->0;
        assert(header =~= p + h);
    }
}

/// A notice tells that an invoice was paid, expired or is invalid; any other tells
/// no state.
pub proof fn notices_tell_a_state(event: WebhookEvent)
    ensures
        event.event_type@ == "InvoiceSettled"@ ==> event.status() == Some("settled"@),
        event.event_type@ == "InvoicePaymentSettled"@ ==> event.status() == Some("settled"@),
        event.event_type@ == "InvoiceExpired"@ ==> event.status() == Some("expired"@),
        event.event_type@ == "InvoiceInvalid"@ ==> event.status() == Some("invalid"@),
        event.event_type@ != "InvoiceSettled"@ && event.event_type@ != "InvoicePaymentSettled"@
            && event.event_type@ != "InvoiceExpired"@ && event.event_type@ != "InvoiceInvalid"@
            ==> event.status() is None,
{
    reveal_strlit("InvoiceSettled");
    reveal_strlit("InvoicePaymentSettled");
    reveal_strlit("InvoiceExpired");
    reveal_strlit("InvoiceInvalid");
    assert("InvoiceSettled"@.len() == 14 && "InvoicePaymentSettled"@.len() == 21
        && "InvoiceExpired"@.len() == 14 && "InvoiceInvalid"@.len() == 14);
    assert("InvoiceSettled"@[7] == 'S' && "InvoiceExpired"@[7] == 'E' && "InvoiceInvalid"@[7]
        == 'I');
}

// ---------- connecting a store ----------

/// A store is connected to the profile that was named, or the default one, which
/// has to be there and must not have a store already.
pub proof fn a_profile_has_one_store(req: StartConnectReq, facts: StartFacts, step: StartStep)
    requires
        is_start_step(req, facts, step),
    ensures
        facts.profile is None && req.merchant_profile_id is Some ==> step == (
        StartStep::FindProfile { id: req.merchant_profile_id->0 }),
        facts.profile is None && req.merchant_profile_id is None ==> step is FindDefaultProfile,
        (facts.profile matches Some(None)) && req.merchant_profile_id is Some ==> step is Refuse
            && (step->error is BadRequest),
        facts.profile matches Some(Some(profile)) ==> match facts.existing {
            None => step == (StartStep::ListProviders { profile_id: profile.id }),
            Some(rows) => {
                &&& (exists|i: int|
                    0 <= i < rows@.len() && (#[trigger] rows@[i]).kind@ == "btcpay"@) ==> step
                    is Refuse && (step->error is Conflict)
                &&& (forall|i: int|
                    0 <= i < rows@.len() ==> (#[trigger] rows@[i]).kind@ != "btcpay"@) ==> step == (
                StartStep::Begin { profile_id: profile.id })
            },
        },
{
}

/// The operator's own key connects a store anywhere; a scoped key only where the
/// service is a sandbox, and the connection remembers that.
pub proof fn scoped_keys_connect_in_sandboxes(
    used_key: Option<String>,
    sandbox: bool,
    r: Result<bool, AppError>,
)
    requires
        is_initiator(used_key, sandbox, r),
    ensures
        used_key is None ==> r == Ok::<bool, AppError>(false),
        used_key is Some && sandbox ==> r == Ok::<bool, AppError>(true),
        used_key is Some && !sandbox ==> r is Err && (r->Err_0 is Forbidden),
{
}

/// What is stored when a connection begins is what comes back with its token, once.
pub proof fn connections_come_back_as_they_began(
    profile_id: Seq<char>,
    scoped: bool,
    actor_hash: Seq<char>,
    state: AuthorizeState,
    row: StoredState,
    r: Result<AuthorizeState, &'static str>,
)
    requires
        is_recorded_state(profile_id, scoped, actor_hash, state),
        row.merchant_profile_id == state.merchant_profile_id,
        row.initiator_actor_hash == state.initiator_actor_hash,
        row.scoped == Some(
            if state.scoped_initiator {
                1i64
            } else {
                0i64
            },
        ),
        is_consumed(Some(row), r),
    ensures
        r is Ok,
        r->Ok_0.merchant_profile_id is Some && r->Ok_0.merchant_profile_id->0@ == profile_id,
        r->Ok_0.scoped_initiator == scoped,
        scoped ==> r->Ok_0.initiator_actor_hash is Some && r->Ok_0.initiator_actor_hash->0@
            == actor_hash,
        !scoped ==> r->Ok_0.initiator_actor_hash is None,
{
}

/// A connection is forgotten when it has not come back for half an hour.
pub proof fn connections_are_kept_for_half_an_hour(now: Moment)
    requires
        now.nanos < 1_000_000_000,
        i64::MIN + 1_800 <= now.secs,
    ensures
        cutoff_text(now) == rfc3339_text((now.secs - 1_800) as i64, now.nanos),
{
}

/// A token that is not known, or too old, gives nothing.
pub proof fn old_tokens_give_nothing(r: Result<AuthorizeState, &'static str>)
    requires
        is_consumed(None, r),
    ensures
        r is Err,
        r->Err_0@ == "unknown or expired authorize state token"@,
{
}

/// A connection that comes back keeps the first store that it was given, for the
/// profile that it was begun for. One that a scoped key began keeps it only where
/// the store's network is known and is not the main one.
pub proof fn connections_keep_the_first_store(
    facts: FinishFacts,
    step: FinishStep,
    state: AuthorizeState,
    profile: MerchantProfile,
)
    requires
        is_finish_step(facts, step),
        facts.state == Some(Some(state)),
        facts.profile == Some(Some(profile)),
    ensures
        facts.stores is None <==> step is ListStores,
        facts.stores matches Some(stores) ==> {
            &&& stores@.len() == 0 ==> step is Refuse && (step->error is BadRequest)
            &&& stores@.len() > 0 && !state.scoped_initiator ==> step == (FinishStep::Register {
                profile_id: profile.id,
                store_id: stores@[0].id,
                network: None,
            })
            &&& stores@.len() > 0 && state.scoped_initiator ==> match facts.network {
                None => step == (FinishStep::DetectNetwork { store_id: stores@[0].id }),
                Some(None) => step is Refuse && (step->error is BadRequest),
                Some(Some(n)) => if n is Mainnet {
                    step is Refuse && (step->error is BadRequest)
                } else {
                    step == (FinishStep::Register {
                        profile_id: profile.id,
                        store_id: stores@[0].id,
                        network: Some(n),
                    })
                },
            }
        },
{
}

/// A connection comes back with a token that is known, to a profile that is still
/// there.
pub proof fn connections_come_back_with_a_token(facts: FinishFacts, step: FinishStep)
    requires
        is_finish_step(facts, step),
    ensures
        facts.state is None <==> step is ConsumeState,
        facts.state matches Some(None) ==> step is Refuse && (step->error is Unauthorized),
        facts.state matches Some(Some(state)) ==> {
            &&& facts.profile is None && state.merchant_profile_id is Some ==> step == (
            FinishStep::FindProfile { id: state.merchant_profile_id->0 })
            &&& facts.profile is None && state.merchant_profile_id is None ==> step
                is FindDefaultProfile
            &&& (facts.profile matches Some(None)) && state.merchant_profile_id is Some ==> step
                is Refuse && (step->error is BadRequest)
        },
{
}

/// What is disconnected is the store that was named, or else the first of the
/// default profile; a provider of another kind is not.
pub proof fn stores_are_disconnected(
    req: DisconnectReq,
    with_id: Option<PaymentProviderRow>,
    of_default: Seq<PaymentProviderRow>,
    r: Option<Disconnection>,
)
    requires
        is_disconnection(req, with_id, of_default, r),
    ensures
        req.provider_id is Some ==> (r is Some <==> with_id is Some && with_id->0.kind@
            == "btcpay"@),
        req.provider_id is Some && r is Some ==> r->0.provider_id == with_id->0.id
            && r->0.webhook_id == with_id->0.webhook_id,
        req.provider_id is None && of_default.len() > 0 && of_default[0].kind@ == "btcpay"@ ==> r
            is Some && r->0.provider_id == of_default[0].id,
        req.provider_id is None && of_default.len() == 0 ==> r is None,
{
    reveal_with_fuel(crate::api::payment_provider::first_of_kind, 1);
}

} // verus!
