//! What holds of the store across several operations.
//!
//! A verification leaves the store as it is, so the life of a store is the
//! sequence of its registrations, with verifications anywhere in between.
//! The laws below speak of one registration, or of such a sequence.

use crate::hashing::{bcrypt_verdict, has_crypt_format, HashBackendFailure, HASH_COST};
use crate::store::{login_result, registers};
use vstd::prelude::*;

verus! {

/// One registration as it took place: what was asked, what was returned,
/// and the store that it left.
pub struct Registration {
    pub username: Seq<char>,
    pub password: Seq<char>,
    pub result: Result<bool, HashBackendFailure>,
    pub after: Map<Seq<char>, Seq<char>>,
}

/// The store on which the registration at `index` worked; with `index` the
/// length of the history, the store that the whole history left.
pub open spec fn store_before(
    start: Map<Seq<char>, Seq<char>>,
    history: Seq<Registration>,
    index: int,
) -> Map<Seq<char>, Seq<char>> {
    if index <= 0 {
        start
    } else {
        history[index - 1].after
    }
}

/// The registration at `index` did to the store before it what a
/// registration does.
pub open spec fn step_holds(
    start: Map<Seq<char>, Seq<char>>,
    history: Seq<Registration>,
    index: int,
) -> bool {
    registers(
        store_before(start, history, index),
        history[index].username,
        history[index].password,
        history[index].result,
        history[index].after,
    )
}

/// `history` is a sequence of registrations on a store that began as
/// `start`, each working on what the one before it left.
pub open spec fn is_history(start: Map<Seq<char>, Seq<char>>, history: Seq<Registration>) -> bool {
    forall|index: int| 0 <= index < history.len() ==> #[trigger] step_holds(start, history, index)
}

/// The number of registrations in `history` that returned `Ok(true)`.
pub open spec fn successes(history: Seq<Registration>) -> nat
    decreases history.len(),
{
    if history.len() == 0 {
        0
    } else {
        let counted: nat = if history.last().result == Ok::<bool, HashBackendFailure>(true) {
            1
        } else {
            0
        };
        successes(history.drop_last()) + counted
    }
}

/// The number of registrations in `history` that returned `Ok(false)`.
pub open spec fn rejections(history: Seq<Registration>) -> nat
    decreases history.len(),
{
    if history.len() == 0 {
        0
    } else {
        let counted: nat = if history.last().result == Ok::<bool, HashBackendFailure>(false) {
            1
        } else {
            0
        };
        rejections(history.drop_last()) + counted
    }
}

/// A registration adds at most the record of its own username, and changes
/// or removes none.
pub proof fn lemma_registration_only_adds(
    pre: Map<Seq<char>, Seq<char>>,
    username: Seq<char>,
    password: Seq<char>,
    r: Result<bool, HashBackendFailure>,
    post: Map<Seq<char>, Seq<char>>,
)
    requires
        registers(pre, username, password, r, post),
    ensures
        pre.submap_of(post),
        post.dom() =~= pre.dom() || post.dom() =~= pre.dom().insert(username),
        post.contains_key(username) <==> pre.contains_key(username) || r == Ok::<
            bool,
            HashBackendFailure,
        >(true),
{
}

/// Records last: whatever a store holds at one point of a history, it holds
/// unchanged at every later point.
pub proof fn lemma_records_persist(
    start: Map<Seq<char>, Seq<char>>,
    history: Seq<Registration>,
    earlier: int,
    later: int,
)
    requires
        is_history(start, history),
        0 <= earlier <= later <= history.len(),
    ensures
        store_before(start, history, earlier).submap_of(store_before(start, history, later)),
    decreases later - earlier,
{
    if earlier < later {
        lemma_records_persist(start, history, earlier, later - 1);
        assert(step_holds(start, history, later - 1));
    }
}

/// A username has at most one record, and the first successful registration
/// decides it for good: every later registration of the same username is
/// turned away and changes nothing, the stored hash stays what the first
/// one stored, and the password of the first one is still accepted.
pub proof fn lemma_second_registration_rejected(
    start: Map<Seq<char>, Seq<char>>,
    history: Seq<Registration>,
    first: int,
    second: int,
)
    requires
        is_history(start, history),
        0 <= first < second < history.len(),
        history[first].username == history[second].username,
        history[first].result == Ok::<bool, HashBackendFailure>(true),
    ensures
        history[second].result == Ok::<bool, HashBackendFailure>(false),
        history[second].after == store_before(start, history, second),
        history[second].after[history[first].username] == history[first].after[history[first].username],
        login_result(history[second].after, history[first].username, history[first].password)
            == Ok::<bool, HashBackendFailure>(true),
        forall|password: Seq<char>|
            login_result(history[second].after, history[first].username, password)
                == #[trigger] login_result(
                history[first].after,
                history[first].username,
                password,
            ),
{
    let username = history[first].username;
    assert(step_holds(start, history, first));
    assert(step_holds(start, history, second));
    lemma_registration_only_adds(
        store_before(start, history, first),
        username,
        history[first].password,
        history[first].result,
        history[first].after,
    );
    lemma_records_persist(start, history, first + 1, second);
}

/// The credentials of a successful registration are accepted right after
/// it.
pub proof fn lemma_registered_credentials_accepted(
    pre: Map<Seq<char>, Seq<char>>,
    username: Seq<char>,
    password: Seq<char>,
    post: Map<Seq<char>, Seq<char>>,
)
    requires
        registers(pre, username, password, Ok(true), post),
    ensures
        login_result(post, username, password) == Ok::<bool, HashBackendFailure>(true),
{
}

/// After a successful registration, a verification of the same username
/// never fails, and it accepts a password exactly where bcrypt accepts that
/// password for the stored hash. So every password that bcrypt tells from
/// the registered one is rejected.
pub proof fn lemma_other_password_rejected(
    pre: Map<Seq<char>, Seq<char>>,
    username: Seq<char>,
    password: Seq<char>,
    post: Map<Seq<char>, Seq<char>>,
    other: Seq<char>,
)
    requires
        registers(pre, username, password, Ok(true), post),
    ensures
        login_result(post, username, other) == Ok::<bool, HashBackendFailure>(
            bcrypt_verdict(other, post[username]) == Some(true),
        ),
        bcrypt_verdict(other, post[username]) != Some(true) ==> login_result(
            post,
            username,
            other,
        ) == Ok::<bool, HashBackendFailure>(false),
{
    assert(bcrypt_verdict(other, post[username]) is Some);
}

/// A username without a record is rejected, whatever the password.
pub proof fn lemma_unknown_user_rejected(
    db: Map<Seq<char>, Seq<char>>,
    username: Seq<char>,
    password: Seq<char>,
)
    requires
        !db.contains_key(username),
    ensures
        login_result(db, username, password) == Ok::<bool, HashBackendFailure>(false),
{
}

/// A username that no registration of a history named has no record at its
/// end, if it had none at the start.
pub proof fn lemma_never_registered_has_no_record(
    start: Map<Seq<char>, Seq<char>>,
    history: Seq<Registration>,
    username: Seq<char>,
    upto: int,
)
    requires
        is_history(start, history),
        0 <= upto <= history.len(),
        !start.contains_key(username),
        forall|index: int| 0 <= index < upto ==> (#[trigger] history[index]).username != username,
    ensures
        !store_before(start, history, upto).contains_key(username),
    decreases upto,
{
    if 0 < upto {
        lemma_never_registered_has_no_record(start, history, username, upto - 1);
        assert(step_holds(start, history, upto - 1));
    }
}

/// A username that was never registered is rejected: on a store that began
/// empty, after any history that does not name it, whatever the password.
pub proof fn lemma_never_registered_rejected(
    history: Seq<Registration>,
    username: Seq<char>,
    password: Seq<char>,
)
    requires
        is_history(Map::empty(), history),
        forall|index: int|
            0 <= index < history.len() ==> (#[trigger] history[index]).username != username,
    ensures
        login_result(
            store_before(Map::empty(), history, history.len() as int),
            username,
            password,
        ) == Ok::<bool, HashBackendFailure>(false),
{
    lemma_never_registered_has_no_record(
        Map::empty(),
        history,
        username,
        history.len() as int,
    );
}

/// What is stored is never the password itself, for any password that has
/// not itself the shape of a hash: the stored text has that shape.
pub proof fn lemma_password_not_stored(
    pre: Map<Seq<char>, Seq<char>>,
    username: Seq<char>,
    password: Seq<char>,
    post: Map<Seq<char>, Seq<char>>,
)
    requires
        registers(pre, username, password, Ok(true), post),
        !has_crypt_format(password, HASH_COST),
    ensures
        has_crypt_format(post[username], HASH_COST),
        post[username] != password,
{
}

/// Registrations of one username, in whatever order they reach the store:
/// at most one succeeds, every one before it failed in the backend, and
/// every one after it is turned away.
pub proof fn lemma_one_winner(
    start: Map<Seq<char>, Seq<char>>,
    history: Seq<Registration>,
    username: Seq<char>,
    winner: int,
    other: int,
)
    requires
        is_history(start, history),
        forall|index: int|
            0 <= index < history.len() ==> (#[trigger] history[index]).username == username,
        0 <= winner < history.len(),
        0 <= other < history.len(),
        history[winner].result == Ok::<bool, HashBackendFailure>(true),
    ensures
        other < winner ==> history[other].result == Err::<bool, HashBackendFailure>(
            HashBackendFailure::HashComputationError,
        ),
        other > winner ==> history[other].result == Ok::<bool, HashBackendFailure>(false),
{
    if other > winner {
        lemma_second_registration_rejected(start, history, winner, other);
    } else if other < winner {
        assert(step_holds(start, history, winner));
        assert(step_holds(start, history, other));
        lemma_records_persist(start, history, other, winner);
        lemma_records_persist(start, history, other + 1, winner);
    }
}

/// Registrations of one username that has no record yet, none of which
/// fails in the backend: exactly one returns `Ok(true)`, the one that
/// reaches the store first, and all the others return `Ok(false)`.
pub proof fn lemma_exactly_one_success(
    start: Map<Seq<char>, Seq<char>>,
    history: Seq<Registration>,
    username: Seq<char>,
)
    requires
        is_history(start, history),
        history.len() > 0,
        !start.contains_key(username),
        forall|index: int|
            0 <= index < history.len() ==> (#[trigger] history[index]).username == username,
        forall|index: int| 0 <= index < history.len() ==> (#[trigger] history[index]).result is Ok,
    ensures
        history[0].result == Ok::<bool, HashBackendFailure>(true),
        forall|index: int|
            0 < index < history.len() ==> (#[trigger] history[index]).result == Ok::<
                bool,
                HashBackendFailure,
            >(false),
        successes(history) == 1,
        rejections(history) == history.len() - 1,
    decreases history.len(),
{
    assert(step_holds(start, history, 0));
    assert forall|index: int| 0 < index < history.len() implies (#[trigger] history[index]).result
        == Ok::<bool, HashBackendFailure>(false) by {
        lemma_second_registration_rejected(start, history, 0, index);
    }
    if history.len() == 1 {
        assert(successes(history.drop_last()) == 0);
        assert(rejections(history.drop_last()) == 0);
    } else {
        let shorter = history.drop_last();
        assert forall|index: int| 0 <= index < shorter.len() implies #[trigger] step_holds(
            start,
            shorter,
            index,
        ) by {
            assert(step_holds(start, history, index));
        }
        lemma_exactly_one_success(start, shorter, username);
    }
}

} // verus!
