//! Whole operations, run against a backend that keeps what it is given and a
//! server whose answers are given in advance, and what holds of them.

use crate::flow::{pending, EffectView, EventView, FlowView, Operation, OutcomeView, StageView};
use crate::model::{bare_result, signed_in, AuthConfigView, TokenResponseView, UserProfileView};
use crate::record::{record_text, token_of_record};
use crate::rules::{
    command_error, delete_flow, deletes, is_success, load_flow, login_flow, rejection_text,
    save_flow, step, stores, well_formed,
};
use vstd::prelude::*;

verus! {

/// What a backend that holds `held` reports for an effect; none for an
/// effect that is not the backend's.
pub open spec fn backend_event(held: Option<Seq<char>>, effect: EffectView) -> Option<EventView> {
    match effect {
        EffectView::LoadRecord => Some(
            match held {
                Some(record) => EventView::Found(record),
                None => EventView::Missing,
            },
        ),
        EffectView::StoreRecord { record } => Some(EventView::Stored),
        EffectView::DeleteRecord => Some(
            match held {
                Some(record) => EventView::Deleted,
                None => EventView::Missing,
            },
        ),
        _ => None,
    }
}

/// What a backend that holds `held` holds after an effect: a write replaces
/// the record, a delete removes it, and nothing else touches it.
pub open spec fn backend_after(held: Option<Seq<char>>, effect: EffectView) -> Option<Seq<char>> {
    match effect {
        EffectView::StoreRecord { record } => Some(record),
        EffectView::DeleteRecord => None,
        _ => held,
    }
}

/// How much outside work a stage can still have before it.
pub open spec fn remaining(stage: StageView) -> nat {
    match stage {
        StageView::LoginSent { url, credentials } => 6,
        StageView::LoginRejected => 5,
        StageView::TokenArriving => 5,
        StageView::Storing { token, record } => 4,
        StageView::Loading => 4,
        StageView::ProfileSent { token, url, authorization } => 3,
        StageView::ProfileArriving { token } => 2,
        StageView::Deleting => 1,
        StageView::Done(outcome) => 0,
    }
}

/// A flow and what the backend holds.
pub struct Session {
    pub flow: FlowView,
    pub held: Option<Seq<char>>,
}

/// Runs a flow to its end: the backend answers what is the backend's, the
/// server answers the rest with `replies`, one after the other. The run stops
/// where the flow is over or the replies are used up.
pub open spec fn run(
    config: AuthConfigView,
    flow: FlowView,
    held: Option<Seq<char>>,
    replies: Seq<EventView>,
    now: Seq<char>,
) -> Session
    decreases replies.len(), remaining(flow.stage),
{
    match pending(flow.stage) {
        None => Session { flow, held },
        Some(effect) => match backend_event(held, effect) {
            Some(event) => {
                let next = step(config, flow, event, now);
                if remaining(next.stage) < remaining(flow.stage) {
                    run(config, next, backend_after(held, effect), replies, now)
                } else {
                    Session { flow, held }
                }
            },
            None => if replies.len() == 0 {
                Session { flow, held }
            } else {
                run(
                    config,
                    step(config, flow, replies[0], now),
                    held,
                    replies.subrange(1, replies.len() as int),
                    now,
                )
            },
        },
    }
}

/// A flow that has ended with `outcome`.
pub open spec fn ended(operation: Operation, outcome: OutcomeView) -> FlowView {
    FlowView { operation, stage: StageView::Done(outcome) }
}

/// Every event leaves a well-formed flow well formed, with its operation
/// unchanged, and never takes it back to an earlier stage.
pub proof fn step_keeps_flows_well_formed(
    config: AuthConfigView,
    flow: FlowView,
    event: EventView,
    now: Seq<char>,
)
    requires
        well_formed(flow),
    ensures
        well_formed(step(config, flow, event, now)),
        step(config, flow, event, now).operation == flow.operation,
        remaining(step(config, flow, event, now).stage) <= remaining(flow.stage),
{
}

/// A flow that is over stays as it is, whatever is reported to it.
pub proof fn finished_flows_ignore_events(
    config: AuthConfigView,
    flow: FlowView,
    event: EventView,
    now: Seq<char>,
)
    requires
        flow.stage is Done,
    ensures
        step(config, flow, event, now) == flow,
{
}

/// Clearing the token succeeds whatever the backend holds, and leaves it
/// empty: on an empty backend it changes nothing and is no error.
pub proof fn clear_token_empties_the_backend(
    config: AuthConfigView,
    held: Option<Seq<char>>,
    now: Seq<char>,
)
    ensures
        run(config, delete_flow(Operation::ClearToken), held, Seq::empty(), now) == (Session {
            flow: ended(Operation::ClearToken, OutcomeView::Unit(Ok(()))),
            held: None,
        }),
{
    reveal_with_fuel(run, 3);
}

/// Saving a token succeeds and leaves the backend with the record of that
/// token, over whatever it held before.
pub proof fn save_token_replaces_the_record(
    config: AuthConfigView,
    held: Option<Seq<char>>,
    token: Seq<char>,
    now: Seq<char>,
)
    ensures
        run(config, save_flow(token, now), held, Seq::empty(), now) == (Session {
            flow: ended(Operation::SaveToken, OutcomeView::Unit(Ok(()))),
            held: Some(record_text(token, now)),
        }),
{
    reveal_with_fuel(run, 3);
}

/// Loading the token reads the record that the backend holds and leaves it
/// there; from an empty backend it gives no token.
pub proof fn load_token_reads_the_record(
    config: AuthConfigView,
    held: Option<Seq<char>>,
    now: Seq<char>,
)
    ensures
        run(config, load_flow(Operation::LoadToken), held, Seq::empty(), now) == (Session {
            flow: ended(
                Operation::LoadToken,
                OutcomeView::Token(
                    match held {
                        Some(record) => token_of_record(record),
                        None => Ok(None),
                    },
                ),
            ),
            held,
        }),
{
    reveal_with_fuel(run, 3);
}

/// Loading after saving reads the record that was saved: the token that
/// comes back is the one that reading finds in the record of `token`.
pub proof fn load_after_save_reads_the_saved_record(
    config: AuthConfigView,
    held: Option<Seq<char>>,
    token: Seq<char>,
    now: Seq<char>,
    later: Seq<char>,
)
    ensures
        run(
            config,
            load_flow(Operation::LoadToken),
            run(config, save_flow(token, now), held, Seq::empty(), now).held,
            Seq::empty(),
            later,
        ).flow == ended(
            Operation::LoadToken,
            OutcomeView::Token(token_of_record(record_text(token, now))),
        ),
{
    save_token_replaces_the_record(config, held, token, now);
    load_token_reads_the_record(config, Some(record_text(token, now)), later);
}

/// A login that the server accepts, followed by a profile fetch that it
/// accepts too, ends with the profile and the token, and leaves the backend
/// with the record of that token.
pub proof fn accepted_login_signs_in(
    config: AuthConfigView,
    held: Option<Seq<char>>,
    email: Seq<char>,
    password: Seq<char>,
    login_status: int,
    body: TokenResponseView,
    profile_status: int,
    profile: UserProfileView,
    now: Seq<char>,
)
    requires
        is_success(login_status),
        is_success(profile_status),
    ensures
        run(
            config,
            login_flow(config, Operation::Login, email, password),
            held,
            seq![
                EventView::Status(login_status),
                EventView::TokenBody(body),
                EventView::Status(profile_status),
                EventView::ProfileBody(profile),
            ],
            now,
        ) == (Session {
            flow: ended(
                Operation::Login,
                OutcomeView::Auth(Ok(signed_in("Login successful"@, body.access_token, profile))),
            ),
            held: Some(record_text(body.access_token, now)),
        }),
{
    let replies = seq![
        EventView::Status(login_status),
        EventView::TokenBody(body),
        EventView::Status(profile_status),
        EventView::ProfileBody(profile),
    ];
    let second = replies.subrange(1, 4);
    let third = second.subrange(1, 3);
    let fourth = third.subrange(1, 2);
    assert(fourth.subrange(1, 1) =~= Seq::<EventView>::empty());
    reveal_with_fuel(run, 7);
}

/// A login that the server refuses ends with an unsuccessful result that
/// carries the server's text, and leaves the backend as it was: no token is
/// persisted.
pub proof fn refused_login_persists_nothing(
    config: AuthConfigView,
    held: Option<Seq<char>>,
    email: Seq<char>,
    password: Seq<char>,
    status: int,
    text: Option<Seq<char>>,
    now: Seq<char>,
)
    requires
        !is_success(status),
    ensures
        run(
            config,
            login_flow(config, Operation::Login, email, password),
            held,
            seq![EventView::Status(status), EventView::ErrorText(text)],
            now,
        ) == (Session {
            flow: ended(
                Operation::Login,
                OutcomeView::Auth(
                    Ok(bare_result(false, "Login failed: "@ + rejection_text(text))),
                ),
            ),
            held,
        }),
{
    let replies = seq![EventView::Status(status), EventView::ErrorText(text)];
    let second = replies.subrange(1, 2);
    assert(second.subrange(1, 1) =~= Seq::<EventView>::empty());
    reveal_with_fuel(run, 4);
}

/// Validating a stored token that the server does not accept removes the
/// record from the backend and ends with an unsuccessful result.
pub proof fn rejected_token_is_removed(
    config: AuthConfigView,
    record: Seq<char>,
    token: Seq<char>,
    status: int,
    now: Seq<char>,
)
    requires
        token_of_record(record) == Ok::<Option<Seq<char>>, Seq<char>>(Some(token)),
        !is_success(status),
    ensures
        run(
            config,
            load_flow(Operation::ValidateStoredToken),
            Some(record),
            seq![EventView::Status(status)],
            now,
        ) == (Session {
            flow: ended(
                Operation::ValidateStoredToken,
                OutcomeView::Auth(Ok(bare_result(false, "Token expired or invalid"@))),
            ),
            held: None,
        }),
{
    let replies = seq![EventView::Status(status)];
    assert(replies.subrange(1, 1) =~= Seq::<EventView>::empty());
    reveal_with_fuel(run, 5);
}

/// Asking whether a token is stored tells whether the backend holds a
/// record, and leaves it there.
pub proof fn has_stored_token_tells_presence(
    config: AuthConfigView,
    held: Option<Seq<char>>,
    now: Seq<char>,
)
    ensures
        run(config, load_flow(Operation::HasStoredToken), held, Seq::empty(), now) == (Session {
            flow: ended(Operation::HasStoredToken, OutcomeView::Present(held is Some)),
            held,
        }),
{
    reveal_with_fuel(run, 3);
}

/// On an empty backend no token is stored; right after a login that the
/// server accepted, one is.
pub proof fn token_is_stored_after_login(
    config: AuthConfigView,
    email: Seq<char>,
    password: Seq<char>,
    login_status: int,
    body: TokenResponseView,
    profile_status: int,
    profile: UserProfileView,
    now: Seq<char>,
)
    requires
        is_success(login_status),
        is_success(profile_status),
    ensures
        run(config, load_flow(Operation::HasStoredToken), None, Seq::empty(), now).flow == ended(
            Operation::HasStoredToken,
            OutcomeView::Present(false),
        ),
        run(
            config,
            load_flow(Operation::HasStoredToken),
            run(
                config,
                login_flow(config, Operation::Login, email, password),
                None,
                seq![
                    EventView::Status(login_status),
                    EventView::TokenBody(body),
                    EventView::Status(profile_status),
                    EventView::ProfileBody(profile),
                ],
                now,
            ).held,
            Seq::empty(),
            now,
        ).flow == ended(Operation::HasStoredToken, OutcomeView::Present(true)),
{
    accepted_login_signs_in(
        config,
        None,
        email,
        password,
        login_status,
        body,
        profile_status,
        profile,
        now,
    );
    has_stored_token_tells_presence(config, None, now);
    has_stored_token_tells_presence(config, Some(record_text(body.access_token, now)), now);
}

/// Only a login and a save ever write the record, and only a clear, a
/// validation and a logout ever delete it.
pub proof fn few_operations_change_the_record(flow: FlowView)
    requires
        well_formed(flow),
    ensures
        pending(flow.stage) matches Some(EffectView::StoreRecord { record }) ==> stores(
            flow.operation,
        ),
        pending(flow.stage) == Some(EffectView::DeleteRecord) ==> deletes(flow.operation),
{
}

/// Validating on an empty backend ends with an unsuccessful result, without
/// a request to the server and without an error.
pub proof fn validation_without_token_asks_nobody(config: AuthConfigView, now: Seq<char>)
    ensures
        run(config, load_flow(Operation::ValidateStoredToken), None, Seq::empty(), now) == (Session {
            flow: ended(
                Operation::ValidateStoredToken,
                OutcomeView::Auth(Ok(bare_result(false, "No stored token found"@))),
            ),
            held: None,
        }),
{
    reveal_with_fuel(run, 3);
}

/// Validating a stored token that the server accepts ends with the profile
/// and leaves the record where it is.
pub proof fn accepted_token_stays(
    config: AuthConfigView,
    record: Seq<char>,
    token: Seq<char>,
    status: int,
    profile: UserProfileView,
    now: Seq<char>,
)
    requires
        token_of_record(record) == Ok::<Option<Seq<char>>, Seq<char>>(Some(token)),
        is_success(status),
    ensures
        run(
            config,
            load_flow(Operation::ValidateStoredToken),
            Some(record),
            seq![EventView::Status(status), EventView::ProfileBody(profile)],
            now,
        ) == (Session {
            flow: ended(
                Operation::ValidateStoredToken,
                OutcomeView::Auth(Ok(signed_in("Token valid"@, token, profile))),
            ),
            held: Some(record),
        }),
{
    let replies = seq![EventView::Status(status), EventView::ProfileBody(profile)];
    let second = replies.subrange(1, 2);
    assert(second.subrange(1, 1) =~= Seq::<EventView>::empty());
    reveal_with_fuel(run, 5);
}

/// Logging out succeeds whatever the backend holds, and leaves it empty.
pub proof fn logout_empties_the_backend(
    config: AuthConfigView,
    held: Option<Seq<char>>,
    now: Seq<char>,
)
    ensures
        run(config, delete_flow(Operation::LogoutUser), held, Seq::empty(), now) == (Session {
            flow: ended(
                Operation::LogoutUser,
                OutcomeView::Command(Ok(bare_result(true, "Logout successful"@))),
            ),
            held: None,
        }),
{
    reveal_with_fuel(run, 3);
}

/// A refresh that the server does not accept ends with the typed error and
/// leaves the record where it is: only a validation gives a token up.
pub proof fn refused_refresh_keeps_the_record(
    config: AuthConfigView,
    record: Seq<char>,
    token: Seq<char>,
    status: int,
    now: Seq<char>,
)
    requires
        token_of_record(record) == Ok::<Option<Seq<char>>, Seq<char>>(Some(token)),
        !is_success(status),
    ensures
        run(
            config,
            load_flow(Operation::RefreshUserProfile),
            Some(record),
            seq![EventView::Status(status)],
            now,
        ) == (Session {
            flow: ended(
                Operation::RefreshUserProfile,
                OutcomeView::Command(
                    Err(
                        command_error(
                            "PROFILE_REFRESH_FAILED"@,
                            "Failed to get user profile"@,
                            "Failed to refresh profile. Please try logging in again."@,
                        ),
                    ),
                ),
            ),
            held: Some(record),
        }),
{
    let replies = seq![EventView::Status(status)];
    assert(replies.subrange(1, 1) =~= Seq::<EventView>::empty());
    reveal_with_fuel(run, 4);
}

} // verus!
