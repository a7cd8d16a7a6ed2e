//! Classification of inbound payloads, and the decisions of the receive
//! loop. JSON parsing is serde_json's work, reached through trusted wrappers
//! from text to plain values; each wrapper's result is deterministic in the
//! text alone, so it carries a name, and everything decided on those values
//! is verified against the names.

use vstd::prelude::*;
use vstd::string::*;

use crate::models::receive::ReceivedItem;
use crate::models::shared::User;
use crate::DiscordRPCError;

verus! {

/// Whether serde_json accepts a text as a JSON document. Parsing is a
/// function of the text alone, so its success has a name.
pub uninterp spec fn json_accepts(s: Seq<char>) -> bool;

/// Relies on serde_json::from_str: it succeeds exactly on valid JSON text,
/// deterministically.
#[verifier::external_body]
fn json_accepted(s: &str) -> (r: bool)
    ensures
        r == json_accepts(s@),
{
    serde_json::from_str::<serde_json::Value>(s).is_ok()
}

/// The string value under a top-level key of a JSON document: `None` when
/// the text does not parse, the document is not an object, the key is
/// absent, or the value is not a string. A function of the text and key
/// alone, so it has a name.
pub uninterp spec fn spec_json_str_field(s: Seq<char>, key: Seq<char>) -> Option<Seq<char>>;

/// Relies on serde_json::from_str, Value::get and Value::as_str: reads the
/// string value under a top-level key. serde_json is deterministic - a
/// duplicate key keeps its last value, and malformed or over-deep input is
/// an error, never a panic - so the result is exactly the named field.
#[verifier::external_body]
fn json_str_field(s: &str, key: &str) -> (r: Option<String>)
    ensures
        (match r {
            Some(t) => spec_json_str_field(s@, key@) == Some(t@),
            None => spec_json_str_field(s@, key@) is None,
        }),
{
    match serde_json::from_str::<serde_json::Value>(s) {
        Ok(v) => match v.get(key) {
            Some(f) => match f.as_str() {
                Some(t) => Some(t.to_string()),
                None => None,
            },
            None => None,
        },
        Err(_) => None,
    }
}

/// The serialized text of the value under a top-level key of a JSON
/// document, `None` when the key cannot be read. A function of the text and
/// key alone, so it has a name.
pub uninterp spec fn spec_json_field_text(s: Seq<char>, key: Seq<char>) -> Option<Seq<char>>;

/// Relies on serde_json::from_str, Value::get and serde_json::to_string:
/// reads the value under a top-level key back out as its serialized text.
/// Serializing a Value is deterministic (object members come out in the
/// map's fixed key order), so the result is exactly the named text.
#[verifier::external_body]
fn json_field_text(s: &str, key: &str) -> (r: Option<String>)
    ensures
        (match r {
            Some(t) => spec_json_field_text(s@, key@) == Some(t@),
            None => spec_json_field_text(s@, key@) is None,
        }),
{
    match serde_json::from_str::<serde_json::Value>(s) {
        Ok(v) => match v.get(key) {
            Some(f) => match serde_json::to_string(f) {
                Ok(t) => Some(t),
                Err(_) => None,
            },
            None => None,
        },
        Err(_) => None,
    }
}

/// The boolean value under a top-level key of a JSON document, `None` when
/// the key cannot be read as a boolean. A function of the text and key
/// alone, so it has a name.
pub uninterp spec fn spec_json_bool_field(s: Seq<char>, key: Seq<char>) -> Option<bool>;

/// Relies on serde_json::from_str, Value::get and Value::as_bool: reads the
/// boolean under a top-level key, deterministically.
#[verifier::external_body]
fn json_bool_field(s: &str, key: &str) -> (r: Option<bool>)
    ensures
        r == spec_json_bool_field(s@, key@),
{
    match serde_json::from_str::<serde_json::Value>(s) {
        Ok(v) => match v.get(key) {
            Some(f) => f.as_bool(),
            None => None,
        },
        Err(_) => None,
    }
}

/// The unsigned-integer value under a top-level key of a JSON document,
/// `None` when the key cannot be read as one. A function of the text and key
/// alone, so it has a name.
pub uninterp spec fn spec_json_u64_field(s: Seq<char>, key: Seq<char>) -> Option<u64>;

/// Relies on serde_json::from_str, Value::get and Value::as_u64: reads the
/// unsigned integer under a top-level key, deterministically.
#[verifier::external_body]
fn json_u64_field(s: &str, key: &str) -> (r: Option<u64>)
    ensures
        r == spec_json_u64_field(s@, key@),
{
    match serde_json::from_str::<serde_json::Value>(s) {
        Ok(v) => match v.get(key) {
            Some(f) => f.as_u64(),
            None => None,
        },
        Err(_) => None,
    }
}

/// The payload text a classified item carries.
pub open spec fn spec_item_payload(item: ReceivedItem) -> Seq<char> {
    match item {
        ReceivedItem::Event { evt, payload } => payload@,
        ReceivedItem::Command { cmd, payload } => payload@,
    }
}

/// True of the payloads that classify: valid JSON carrying a string `evt`
/// field, or failing that a string `cmd` field.
pub open spec fn spec_classifiable(s: Seq<char>) -> bool {
    json_accepts(s) && (spec_json_str_field(s, "evt"@) is Some || spec_json_str_field(s, "cmd"@)
        is Some)
}

/// The variant and tag a classified item must carry for its payload: an
/// event exactly when the payload's `evt` field is a string, with that
/// string as its tag; a command response exactly when there is no string
/// `evt` field and the `cmd` field is a string, with that string as its tag.
pub open spec fn spec_item_well_tagged(item: ReceivedItem) -> bool {
    match item {
        ReceivedItem::Event { evt, payload } => spec_json_str_field(payload@, "evt"@) == Some(
            evt@,
        ),
        ReceivedItem::Command { cmd, payload } => spec_json_str_field(payload@, "evt"@) is None
            && spec_json_str_field(payload@, "cmd"@) == Some(cmd@),
    }
}

/// Classifies one payload structurally: an object with a string `evt` field
/// is an event, otherwise one with a string `cmd` field is a command
/// response, and a payload matching neither shape - or not parsing at all -
/// is a decode failure, never silently dropped. Classification succeeds if
/// and only if the payload is classifiable, the item's variant and tag are
/// pinned to the payload's fields, and the payload's full text rides along
/// unchanged.
pub fn classify_payload(payload: &str) -> (r: Result<ReceivedItem, DiscordRPCError>)
    ensures
        spec_classifiable(payload@) ==> r is Ok,
        !spec_classifiable(payload@) ==> r == Err::<ReceivedItem, DiscordRPCError>(
            DiscordRPCError::SerdeJson,
        ),
        r matches Ok(item) ==> spec_item_payload(item) == payload@ && spec_item_well_tagged(item),
{
    if !json_accepted(payload) {
        return Err(DiscordRPCError::SerdeJson);
    }
    if let Some(tag) = json_str_field(payload, "evt") {
        return Ok(ReceivedItem::Event { evt: tag, payload: payload.to_owned() });
    }
    if let Some(tag) = json_str_field(payload, "cmd") {
        return Ok(ReceivedItem::Command { cmd: tag, payload: payload.to_owned() });
    }
    Err(DiscordRPCError::SerdeJson)
}

/// The tag of an inbound envelope: its string `evt` field, or failing that
/// its string `cmd` field.
pub open spec fn spec_ready_tag(s: Seq<char>) -> Option<Seq<char>> {
    match spec_json_str_field(s, "evt"@) {
        Some(t) => Some(t),
        None => spec_json_str_field(s, "cmd"@),
    }
}

/// The serialized user object of a ready payload: the `user` member of its
/// `data` member.
pub open spec fn spec_ready_user_text(s: Seq<char>) -> Option<Seq<char>> {
    match spec_json_field_text(s, "data"@) {
        Some(d) => spec_json_field_text(d, "user"@),
        None => None,
    }
}

/// True of the payloads the handshake accepts: valid JSON whose tag is
/// `READY` and whose `data.user` carries at least an id and a username.
pub open spec fn spec_ready_ok(s: Seq<char>) -> bool {
    json_accepts(s) && spec_ready_tag(s) == Some("READY"@) && (match spec_ready_user_text(s) {
        Some(ut) => spec_json_str_field(ut, "id"@) is Some && spec_json_str_field(ut, "username"@)
            is Some,
        None => false,
    })
}

/// The session identity captured from a ready payload is exactly what the
/// serialized user object carries: required id and username, the optional
/// fields when they are present with the right kind, and a flags value only
/// when it fits 32 bits.
pub open spec fn spec_user_matches(u: User, ut: Seq<char>) -> bool {
    spec_json_str_field(ut, "id"@) == Some(u.id@) && spec_json_str_field(ut, "username"@) == Some(
        u.username@,
    ) && (match u.avatar {
        Some(a) => spec_json_str_field(ut, "avatar"@) == Some(a@),
        None => spec_json_str_field(ut, "avatar"@) is None,
    }) && u.bot == spec_json_bool_field(ut, "bot"@) && (match spec_json_u64_field(ut, "flags"@) {
        Some(nv) => if nv <= u32::MAX {
            u.flags == Some(nv as u32)
        } else {
            u.flags is None
        },
        None => u.flags is None,
    }) && (match spec_json_u64_field(ut, "premium_type"@) {
        Some(nv) => if nv <= u32::MAX {
            u.premium_type == Some(nv as u32)
        } else {
            u.premium_type is None
        },
        None => u.premium_type is None,
    })
}

/// Validates the first frame after the handshake: the payload must be valid
/// JSON whose tag - `evt`, or failing that `cmd` - is `READY` and whose
/// `data.user` carries a session identity; exactly those payloads succeed,
/// and the identity returned is the payload's own, unchanged. Anything else
/// is a terminal connect failure. What the handshake state machine then does
/// with the outcome is pinned by [`spec_handshake_step`].
///
/// [`spec_handshake_step`]: crate::ipc::spec_handshake_step
pub fn validate_ready(payload: &str) -> (r: Result<User, DiscordRPCError>)
    ensures
        spec_ready_ok(payload@) ==> (r matches Ok(u) && (spec_ready_user_text(payload@) matches Some(
            ut,
        ) && spec_user_matches(u, ut))),
        !spec_ready_ok(payload@) ==> r == Err::<User, DiscordRPCError>(
            DiscordRPCError::CouldNotConnect,
        ),
{
    if !json_accepted(payload) {
        return Err(DiscordRPCError::CouldNotConnect);
    }
    let tag = match json_str_field(payload, "evt") {
        Some(t) => Some(t),
        None => json_str_field(payload, "cmd"),
    };
    let ready = String::from_str("READY");
    let tag_is_ready = match &tag {
        Some(t) => *t == ready,
        None => false,
    };
    if !tag_is_ready {
        return Err(DiscordRPCError::CouldNotConnect);
    }
    let data = match json_field_text(payload, "data") {
        Some(d) => d,
        None => {
            return Err(DiscordRPCError::CouldNotConnect);
        },
    };
    let user_text = match json_field_text(data.as_str(), "user") {
        Some(u) => u,
        None => {
            return Err(DiscordRPCError::CouldNotConnect);
        },
    };
    let id = match json_str_field(user_text.as_str(), "id") {
        Some(s) => s,
        None => {
            return Err(DiscordRPCError::CouldNotConnect);
        },
    };
    let username = match json_str_field(user_text.as_str(), "username") {
        Some(s) => s,
        None => {
            return Err(DiscordRPCError::CouldNotConnect);
        },
    };
    let avatar = json_str_field(user_text.as_str(), "avatar");
    let bot = json_bool_field(user_text.as_str(), "bot");
    let flags = match json_u64_field(user_text.as_str(), "flags") {
        Some(nv) => if nv <= u32::MAX as u64 {
            Some(nv as u32)
        } else {
            None
        },
        None => None,
    };
    let premium_type = match json_u64_field(user_text.as_str(), "premium_type") {
        Some(nv) => if nv <= u32::MAX as u64 {
            Some(nv as u32)
        } else {
            None
        },
        None => None,
    };
    Ok(User { id, username, avatar, bot, flags, premium_type })
}

/// What the receive loop does after one read: hand a classified message to
/// the callback, report a decode failure and keep going, or stop on a channel
/// failure.
#[derive(Debug, PartialEq, Eq)]
pub enum LoopAction {
    /// Invoke the callback with this message.
    Deliver(ReceivedItem),
    /// Report the decode failure and continue with the next frame.
    ReportAndContinue,
    /// The channel failed or closed: the loop terminates.
    Stop,
}

/// The outcome of one read on the transport, as the receive loop sees it.
#[derive(Debug, PartialEq, Eq)]
pub enum RecvOutcome {
    /// A frame arrived and was classified.
    Frame(Result<ReceivedItem, DiscordRPCError>),
    /// The read itself failed: the channel is closed or broken.
    Closed(DiscordRPCError),
}

/// The receive loop's whole decision, one read at a time: a classified
/// message is delivered, a malformed message is reported and never ends the
/// session, and only a channel failure stops the loop.
pub fn loop_step(outcome: RecvOutcome) -> (a: LoopAction)
    ensures
        outcome matches RecvOutcome::Frame(Ok(item)) ==> a == LoopAction::Deliver(item),
        (outcome matches RecvOutcome::Frame(f) && f is Err) ==> a == LoopAction::ReportAndContinue,
        outcome matches RecvOutcome::Closed(e) ==> a == LoopAction::Stop,
{
    match outcome {
        RecvOutcome::Frame(Ok(item)) => LoopAction::Deliver(item),
        RecvOutcome::Frame(Err(_)) => LoopAction::ReportAndContinue,
        RecvOutcome::Closed(_) => LoopAction::Stop,
    }
}

/// The messages the callback sees, in order: the classified items of the
/// outcome sequence, each exactly once, in arrival order.
pub open spec fn spec_delivered(outcomes: Seq<Result<ReceivedItem, DiscordRPCError>>) -> Seq<
    ReceivedItem,
>
    decreases outcomes.len(),
{
    if outcomes.len() == 0 {
        Seq::<ReceivedItem>::empty()
    } else {
        spec_delivered(outcomes.drop_last()) + (match outcomes.last() {
            Ok(item) => seq![item],
            Err(e) => Seq::<ReceivedItem>::empty(),
        })
    }
}

/// How many of the outcomes were decode failures.
pub open spec fn spec_report_count(outcomes: Seq<Result<ReceivedItem, DiscordRPCError>>) -> nat
    decreases outcomes.len(),
{
    if outcomes.len() == 0 {
        0
    } else {
        spec_report_count(outcomes.drop_last()) + (if outcomes.last() is Err {
            1nat
        } else {
            0nat
        })
    }
}

/// Every outcome is either delivered or reported: the callback fires once per
/// well-formed frame, a report happens once per malformed frame, and nothing
/// is lost.
pub proof fn lemma_dispatch_partition(outcomes: Seq<Result<ReceivedItem, DiscordRPCError>>)
    ensures
        spec_delivered(outcomes).len() + spec_report_count(outcomes) == outcomes.len(),
    decreases outcomes.len(),
{
    if outcomes.len() > 0 {
        lemma_dispatch_partition(outcomes.drop_last());
    }
}

/// Dispatch distributes over concatenation of outcome sequences: what a run
/// delivers and reports does not depend on how the frames were batched.
pub proof fn lemma_dispatch_concat(
    a: Seq<Result<ReceivedItem, DiscordRPCError>>,
    b: Seq<Result<ReceivedItem, DiscordRPCError>>,
)
    ensures
        spec_delivered(a + b) == spec_delivered(a) + spec_delivered(b),
        spec_report_count(a + b) == spec_report_count(a) + spec_report_count(b),
    decreases b.len(),
{
    if b.len() == 0 {
        assert(a + b =~= a);
        assert(spec_delivered(a) + spec_delivered(b) =~= spec_delivered(a));
    } else {
        assert((a + b).drop_last() =~= a + b.drop_last());
        assert((a + b).last() == b.last());
        lemma_dispatch_concat(a, b.drop_last());
        assert(spec_delivered(a + b) =~= spec_delivered(a) + spec_delivered(b));
    }
}

/// When every frame in a run is well formed, the callback fires once per
/// frame and sees the classified messages in exactly their arrival order.
pub proof fn lemma_all_delivered_in_order(outcomes: Seq<Result<ReceivedItem, DiscordRPCError>>)
    requires
        forall|k: int| 0 <= k < outcomes.len() ==> (#[trigger] outcomes[k]) is Ok,
    ensures
        spec_delivered(outcomes).len() == outcomes.len(),
        forall|k: int|
            0 <= k < outcomes.len() ==> #[trigger] spec_delivered(outcomes)[k]
                == outcomes[k]->Ok_0,
    decreases outcomes.len(),
{
    if outcomes.len() > 0 {
        lemma_all_delivered_in_order(outcomes.drop_last());
    }
}

/// One malformed frame between two well-formed runs changes nothing about
/// what is delivered: the runs' messages arrive back to back, in order, and
/// the failure is reported exactly once. A single bad message never costs a
/// good one.
pub proof fn lemma_failure_skipped(
    before: Seq<Result<ReceivedItem, DiscordRPCError>>,
    error: DiscordRPCError,
    after: Seq<Result<ReceivedItem, DiscordRPCError>>,
)
    ensures
        spec_delivered(before + seq![Err::<ReceivedItem, DiscordRPCError>(error)] + after)
            == spec_delivered(before) + spec_delivered(after),
        spec_report_count(before + seq![Err::<ReceivedItem, DiscordRPCError>(error)] + after)
            == spec_report_count(before) + spec_report_count(after) + 1,
{
    reveal_with_fuel(spec_delivered, 2);
    reveal_with_fuel(spec_report_count, 2);
    let failure = seq![Err::<ReceivedItem, DiscordRPCError>(error)];
    lemma_dispatch_concat(before + failure, after);
    lemma_dispatch_concat(before, failure);
    assert(failure.drop_last() =~= Seq::<Result<ReceivedItem, DiscordRPCError>>::empty());
    assert(failure.last() is Err);
    assert(spec_delivered(failure) =~= Seq::<ReceivedItem>::empty());
    assert(spec_report_count(failure) == 1);
    assert(spec_delivered(before) + spec_delivered(failure) =~= spec_delivered(before));
}

/// Replays a sequence of classification outcomes the way the receive loop
/// does: callbacks fire in strict arrival order, exactly once per classified
/// message; decode failures are counted and never interrupt the run.
pub fn dispatch_in_order(outcomes: Vec<Result<ReceivedItem, DiscordRPCError>>) -> (r: (
    Vec<ReceivedItem>,
    usize,
))
    ensures
        r.0@ == spec_delivered(outcomes@),
        r.1 == spec_report_count(outcomes@),
{
    let ghost all = outcomes@;
    let n = outcomes.len();
    let mut delivered: Vec<ReceivedItem> = Vec::new();
    let mut reported: usize = 0;
    for outcome in it: outcomes.into_iter()
        invariant
            it.seq() == all,
            all.len() == n,
            it.index() <= n,
            delivered@ == spec_delivered(all.subrange(0, it.index() as int)),
            reported == spec_report_count(all.subrange(0, it.index() as int)),
            reported <= it.index(),
    {
        proof {
            assert(all.subrange(0, it.index() as int + 1).drop_last() =~= all.subrange(
                0,
                it.index() as int,
            ));
            assert(all.subrange(0, it.index() as int + 1).last() == all[it.index() as int]);
        }
        match outcome {
            Ok(item) => delivered.push(item),
            Err(_) => {
                reported = reported + 1;
            },
        }
    }
    proof {
        assert(all.subrange(0, all.len() as int) =~= all);
    }
    (delivered, reported)
}

/// The payload texts of a run of classified items, in order.
pub open spec fn spec_item_payloads(items: Seq<ReceivedItem>) -> Seq<Seq<char>> {
    items.map_values(|it: ReceivedItem| spec_item_payload(it))
}

/// The classifiable texts of a batch, in arrival order.
pub open spec fn spec_classifiable_texts(texts: Seq<Seq<char>>) -> Seq<Seq<char>>
    decreases texts.len(),
{
    if texts.len() == 0 {
        Seq::<Seq<char>>::empty()
    } else {
        spec_classifiable_texts(texts.drop_last()) + (if spec_classifiable(texts.last()) {
            seq![texts.last()]
        } else {
            Seq::<Seq<char>>::empty()
        })
    }
}

/// Classifies a batch of payload texts and replays them in order, as the
/// receive loop would when the peer writes frames back to back: the callback
/// sees exactly the classifiable payloads, in arrival order, each well
/// tagged; every other payload is reported, and the batch always runs to the
/// end.
pub fn process_payloads(payloads: &Vec<String>) -> (r: (Vec<ReceivedItem>, usize))
    ensures
        r.0@.len() + r.1 == payloads@.len(),
        spec_item_payloads(r.0@) == spec_classifiable_texts(
            crate::json::spec_string_views(payloads@),
        ),
        forall|k: int| 0 <= k < r.0@.len() ==> spec_item_well_tagged(#[trigger] r.0@[k]),
{
    let ghost views = crate::json::spec_string_views(payloads@);
    let n = payloads.len();
    let mut delivered: Vec<ReceivedItem> = Vec::new();
    let mut reported: usize = 0;
    let mut i: usize = 0;
    while i < n
        invariant
            n == payloads@.len(),
            views == crate::json::spec_string_views(payloads@),
            i <= n,
            delivered@.len() + reported == i,
            spec_item_payloads(delivered@) == spec_classifiable_texts(views.subrange(0, i as int)),
            forall|k: int| 0 <= k < delivered@.len() ==> spec_item_well_tagged(#[trigger] delivered@[k]),
        decreases n - i,
    {
        proof {
            assert(views.subrange(0, i as int + 1).drop_last() =~= views.subrange(0, i as int));
            assert(views.subrange(0, i as int + 1).last() == views[i as int]);
            assert(views[i as int] == payloads@[i as int]@);
        }
        match classify_payload(payloads[i].as_str()) {
            Ok(item) => {
                delivered.push(item);
                proof {
                    assert(spec_item_payloads(delivered@) =~= spec_classifiable_texts(
                        views.subrange(0, i as int + 1),
                    ));
                }
            },
            Err(_) => {
                reported = reported + 1;
                proof {
                    assert(spec_item_payloads(delivered@) =~= spec_classifiable_texts(
                        views.subrange(0, i as int + 1),
                    ));
                }
            },
        }
        i += 1;
    }
    proof {
        assert(views.subrange(0, n as int) =~= views);
    }
    (delivered, reported)
}

} // verus!
