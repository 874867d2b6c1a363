//! The users table as a sequence of rows, and what the service's operations
//! do to it when the table answers each read with the rows that match it.
//! The properties below hold of the service's decisions, as
//! `services::user` states them, on every such table.
use vstd::prelude::*;

use crate::handlers::update::update_status_of;
use crate::models::{AuthServiceError, Credentials, UserRow};
use crate::services::user::{
    get_user_reply, sign_up_plan, sign_up_reply, update_columns, update_reply, SignUpPlan,
};

verus! {

/// The rows of `rows` whose username is `username`, in table order.
pub open spec fn rows_named(rows: Seq<UserRow>, username: Seq<char>) -> Seq<UserRow> {
    rows.filter(|r: UserRow| r.username == username)
}

/// The rows of `rows` whose id is `id`, in table order.
pub open spec fn rows_with_id(rows: Seq<UserRow>, id: i32) -> Seq<UserRow> {
    rows.filter(|r: UserRow| r.id == id)
}

/// No two rows share a username.
pub open spec fn usernames_distinct(rows: Seq<UserRow>) -> bool {
    forall|i: int, j: int|
        0 <= i < j < rows.len() ==> #[trigger] rows[i].username != #[trigger] rows[j].username
}

/// No two rows share an id.
pub open spec fn ids_distinct(rows: Seq<UserRow>) -> bool {
    forall|i: int, j: int| 0 <= i < j < rows.len() ==> #[trigger] rows[i].id != #[trigger] rows[j].id
}

/// No row has the id `id`.
pub open spec fn id_fresh(rows: Seq<UserRow>, id: i32) -> bool {
    forall|i: int| 0 <= i < rows.len() ==> #[trigger] rows[i].id != id
}

/// Some row has the id `id`.
pub open spec fn id_present(rows: Seq<UserRow>, id: i32) -> bool {
    exists|i: int| 0 <= i < rows.len() && #[trigger] rows[i].id == id
}

/// The table and the answer after a sign-up of `dto` against `rows`, the
/// table giving the id `fresh_id` to a row that it inserts.
pub open spec fn sign_up_on(rows: Seq<UserRow>, dto: Credentials, fresh_id: i32) -> (
    Seq<UserRow>,
    Result<i32, AuthServiceError>,
) {
    let plan = sign_up_plan(dto, rows_named(rows, dto.username));
    match plan {
        SignUpPlan::Create(columns) => {
            let row = UserRow { id: fresh_id, username: columns.username, password: columns.password };
            (rows.push(row), sign_up_reply(plan, Some(row)))
        },
        _ => (rows, sign_up_reply(plan, None)),
    }
}

/// The answer of a lookup of `id` in `rows`.
pub open spec fn get_user_on(rows: Seq<UserRow>, id: i32) -> Result<UserRow, AuthServiceError> {
    get_user_reply(rows_with_id(rows, id))
}

/// The table after an update of `dto` against `rows`.
pub open spec fn update_on(rows: Seq<UserRow>, dto: UserRow) -> Seq<UserRow> {
    rows.map_values(
        |r: UserRow|
            if r.id == dto.id {
                UserRow {
                    id: r.id,
                    username: update_columns(dto).username,
                    password: update_columns(dto).password,
                }
            } else {
                r
            },
    )
}

/// The answer of an update of `dto` against `rows`, in which some row has the
/// id `dto.id`: the row that the rewrite hands back decides it.
pub open spec fn update_answer_on(rows: Seq<UserRow>, dto: UserRow) -> Result<bool, AuthServiceError> {
    update_reply(rows_with_id(update_on(rows, dto), dto.id)[0])
}

/// Where usernames are distinct, at most one row holds a given username.
proof fn lemma_named_at_most_one(rows: Seq<UserRow>, username: Seq<char>)
    requires
        usernames_distinct(rows),
    ensures
        rows_named(rows, username).len() <= 1,
        rows_named(rows, username).len() == 1 ==> rows.contains(rows_named(rows, username)[0]),
    decreases rows.len(),
{
    broadcast use Seq::lemma_filter_push, Seq::lemma_filter_contains_rev;

    let pred = |r: UserRow| r.username == username;
    if rows.len() > 0 {
        let rest = rows.drop_last();
        assert(rows =~= rest.push(rows.last()));
        assert(usernames_distinct(rest)) by {
            assert forall|i: int, j: int| 0 <= i < j < rest.len() implies #[trigger] rest[i].username
                != #[trigger] rest[j].username by {
                assert(rest[i] == rows[i] && rest[j] == rows[j]);
            }
        }
        lemma_named_at_most_one(rest, username);
        if pred(rows.last()) && rest.filter(pred).len() == 1 {
            let r = rest.filter(pred)[0];
            assert(rest.filter(pred).contains(r));
            assert(rest.contains(r));
            let i = choose|i: int| 0 <= i < rest.len() && rest[i] == r;
            rest.lemma_filter_pred(pred, 0);
            assert(rows[i].username == rows[rows.len() - 1].username);
        }
        assert(rows.filter(pred) == rest.push(rows.last()).filter(pred));
        if rows.filter(pred).len() == 1 {
            assert(rows.filter(pred).contains(rows.filter(pred)[0]));
        }
    }
}

/// Where the id is fresh, a lookup of it finds no row.
proof fn lemma_fresh_none_with_id(rows: Seq<UserRow>, id: i32)
    requires
        id_fresh(rows, id),
    ensures
        rows_with_id(rows, id).len() == 0,
    decreases rows.len(),
{
    broadcast use Seq::lemma_filter_push;

    if rows.len() > 0 {
        let rest = rows.drop_last();
        assert(rows =~= rest.push(rows.last()));
        assert(id_fresh(rest, id)) by {
            assert forall|i: int| 0 <= i < rest.len() implies #[trigger] rest[i].id != id by {
                assert(rest[i] == rows[i]);
            }
        }
        lemma_fresh_none_with_id(rest, id);
    }
}

/// Where ids are distinct, every row found by an id is the table's row with that id.
proof fn lemma_with_id_is_the_row(rows: Seq<UserRow>, k: int)
    requires
        ids_distinct(rows),
        0 <= k < rows.len(),
    ensures
        rows_with_id(rows, rows[k].id).len() > 0,
        rows_with_id(rows, rows[k].id)[0] == rows[k],
{
    broadcast use Seq::lemma_filter_contains, Seq::lemma_filter_contains_rev, Seq::lemma_filter_pred;

    let id = rows[k].id;
    let pred = |r: UserRow| r.id == id;
    assert(pred(rows[k]));
    assert(rows.filter(pred).contains(rows[k]));
    let found = rows.filter(pred);
    assert(found.len() > 0);
    assert(found.contains(found[0]));
    assert(rows.contains(found[0]));
    let i = choose|i: int| 0 <= i < rows.len() && rows[i] == found[0];
    assert(pred(found[0]));
    if i < k {
        assert(rows[i].id != rows[k].id);
    } else if k < i {
        assert(rows[k].id != rows[i].id);
    }
}

/// A sign-up keeps the usernames of a table distinct, keeps its ids distinct
/// when the table gives a fresh id, and succeeds on every table with
/// distinct usernames.
pub proof fn lemma_sign_up_keeps_table_well_formed(rows: Seq<UserRow>, dto: Credentials, fresh_id: i32)
    requires
        usernames_distinct(rows),
    ensures
        usernames_distinct(sign_up_on(rows, dto, fresh_id).0),
        sign_up_on(rows, dto, fresh_id).1 is Ok,
        ids_distinct(rows) && id_fresh(rows, fresh_id) ==> ids_distinct(sign_up_on(rows, dto, fresh_id).0),
{
    broadcast use Seq::lemma_filter_contains;

    lemma_named_at_most_one(rows, dto.username);
    let found = rows_named(rows, dto.username);
    if found.len() == 0 {
        let pred = |r: UserRow| r.username == dto.username;
        let after = sign_up_on(rows, dto, fresh_id).0;
        assert forall|i: int, j: int| 0 <= i < j < after.len() implies #[trigger] after[i].username
            != #[trigger] after[j].username by {
            if j == rows.len() {
                if rows[i].username == dto.username {
                    assert(pred(rows[i]));
                    assert(rows.filter(pred).contains(rows[i]));
                }
            } else {
                assert(after[i] == rows[i] && after[j] == rows[j]);
            }
        }
    }
}

/// Once a sign-up has succeeded, a second sign-up with the same username,
/// whatever its password, gives the same answer and leaves the table as the
/// first sign-up left it.
pub proof fn lemma_sign_up_is_idempotent(
    rows: Seq<UserRow>,
    dto: Credentials,
    first_id: i32,
    again: Credentials,
    second_id: i32,
)
    requires
        sign_up_on(rows, dto, first_id).1 is Ok,
        again.username == dto.username,
    ensures
        ({
            let (once, first) = sign_up_on(rows, dto, first_id);
            sign_up_on(once, again, second_id) == (once, first)
        }),
{
    broadcast use Seq::lemma_filter_push;

    let found = rows_named(rows, dto.username);
    if found.len() == 0 {
        let row = UserRow { id: first_id, username: dto.username, password: dto.password };
        let pred = |r: UserRow| r.username == dto.username;
        assert(rows.push(row).filter(pred) == rows.filter(pred).push(row));
        assert(rows_named(rows.push(row), again.username) =~= seq![row]);
    }
}

/// A sign-up with a username that no row holds creates the row, under the
/// fresh id that the table gives it, and a lookup of that id finds exactly
/// the credentials signed up with.
pub proof fn lemma_get_after_new_sign_up(rows: Seq<UserRow>, dto: Credentials, fresh_id: i32)
    requires
        rows_named(rows, dto.username).len() == 0,
        id_fresh(rows, fresh_id),
    ensures
        ({
            let (after, answer) = sign_up_on(rows, dto, fresh_id);
            &&& answer == Ok::<i32, AuthServiceError>(fresh_id)
            &&& get_user_on(after, fresh_id) == Ok::<UserRow, AuthServiceError>(
                UserRow { id: fresh_id, username: dto.username, password: dto.password },
            )
        }),
{
    broadcast use Seq::lemma_filter_push;

    let row = UserRow { id: fresh_id, username: dto.username, password: dto.password };
    lemma_fresh_none_with_id(rows, fresh_id);
    let pred = |r: UserRow| r.id == fresh_id;
    assert(rows.push(row).filter(pred) == rows.filter(pred).push(row));
    assert(rows_with_id(rows.push(row), fresh_id) =~= seq![row]);
}

/// After a sign-up, a lookup of the id that it answered with finds a row
/// with that id and the username signed up with; a row that the sign-up
/// created also holds the password signed up with.
pub proof fn lemma_get_after_sign_up(rows: Seq<UserRow>, dto: Credentials, fresh_id: i32)
    requires
        usernames_distinct(rows),
        ids_distinct(rows),
        id_fresh(rows, fresh_id),
    ensures
        ({
            let (after, answer) = sign_up_on(rows, dto, fresh_id);
            &&& answer is Ok
            &&& get_user_on(after, answer->Ok_0) is Ok
            &&& get_user_on(after, answer->Ok_0)->Ok_0.id == answer->Ok_0
            &&& get_user_on(after, answer->Ok_0)->Ok_0.username == dto.username
            &&& rows_named(rows, dto.username).len() == 0 ==> get_user_on(after, answer->Ok_0)
                == Ok::<UserRow, AuthServiceError>(
                UserRow { id: fresh_id, username: dto.username, password: dto.password },
            )
        }),
{
    broadcast use Seq::lemma_filter_contains_rev, Seq::lemma_filter_pred;

    lemma_named_at_most_one(rows, dto.username);
    let found = rows_named(rows, dto.username);
    if found.len() == 0 {
        lemma_get_after_new_sign_up(rows, dto, fresh_id);
    } else {
        let r = found[0];
        let npred = |x: UserRow| x.username == dto.username;
        rows.lemma_filter_pred(npred, 0);
        assert(rows.contains(r));
        let k = choose|k: int| 0 <= k < rows.len() && rows[k] == r;
        lemma_with_id_is_the_row(rows, k);
    }
}

/// After an update of a row that exists, a lookup of its id finds the
/// columns that the update wrote.
pub proof fn lemma_get_after_update(rows: Seq<UserRow>, dto: UserRow)
    requires
        id_present(rows, dto.id),
    ensures
        get_user_on(update_on(rows, dto), dto.id) == Ok::<UserRow, AuthServiceError>(dto),
{
    broadcast use Seq::lemma_filter_contains, Seq::lemma_filter_contains_rev, Seq::lemma_filter_pred;

    let after = update_on(rows, dto);
    let k = choose|k: int| 0 <= k < rows.len() && #[trigger] rows[k].id == dto.id;
    let pred = |r: UserRow| r.id == dto.id;
    assert(pred(after[k]));
    assert(after.filter(pred).contains(after[k]));
    let found = after.filter(pred);
    assert(found.contains(found[0]));
    assert(after.contains(found[0]));
    let i = choose|i: int| 0 <= i < after.len() && after[i] == found[0];
    assert(pred(found[0]));
    assert(after[i] =~= dto);
}

/// An update leaves what a lookup of any other id finds unchanged.
pub proof fn lemma_update_leaves_other_rows(rows: Seq<UserRow>, dto: UserRow, other: i32)
    requires
        other != dto.id,
    ensures
        get_user_on(update_on(rows, dto), other) == get_user_on(rows, other),
{
    assert(rows_with_id(update_on(rows, dto), other) == rows_with_id(rows, other)) by {
        lemma_update_filter_other(rows, dto, other);
    }
}

proof fn lemma_update_filter_other(rows: Seq<UserRow>, dto: UserRow, other: i32)
    requires
        other != dto.id,
    ensures
        rows_with_id(update_on(rows, dto), other) == rows_with_id(rows, other),
    decreases rows.len(),
{
    broadcast use Seq::lemma_filter_push;

    if rows.len() > 0 {
        let rest = rows.drop_last();
        assert(rows =~= rest.push(rows.last()));
        lemma_update_filter_other(rest, dto, other);
        assert(update_on(rows, dto) =~= update_on(rest, dto).push(update_on(rows, dto).last()));
    } else {
        assert(update_on(rows, dto) =~= rows);
    }
}

/// An update of an existing id answers success, so its endpoint answers
/// 200; the table keeps its length, every row with the id becomes the
/// updated row, and every other row stays as it was. Other rows' usernames
/// are not looked at: a row that already holds the new username keeps it.
pub proof fn lemma_update_succeeds(rows: Seq<UserRow>, dto: UserRow)
    requires
        id_present(rows, dto.id),
    ensures
        update_answer_on(rows, dto) == Ok::<bool, AuthServiceError>(true),
        update_status_of(update_answer_on(rows, dto)) == 200,
        update_on(rows, dto).len() == rows.len(),
        forall|k: int| 0 <= k < rows.len() && rows[k].id == dto.id ==> #[trigger] update_on(rows, dto)[k] == dto,
        forall|j: int| 0 <= j < rows.len() && rows[j].id != dto.id ==> #[trigger] update_on(rows, dto)[j] == rows[j],
        id_present(update_on(rows, dto), dto.id),
{
    let after = update_on(rows, dto);
    let k = choose|k: int| 0 <= k < rows.len() && #[trigger] rows[k].id == dto.id;
    assert(after[k].id == dto.id);
    assert forall|i: int| 0 <= i < rows.len() && rows[i].id == dto.id implies #[trigger] update_on(rows, dto)[i]
        == dto by {
        assert(update_on(rows, dto)[i] =~= dto);
    }
}

/// Where the new username is already held by another row, an update still
/// answers success and leaves two rows holding that username.
pub proof fn lemma_update_ignores_other_usernames(rows: Seq<UserRow>, dto: UserRow, k: int, j: int)
    requires
        0 <= k < rows.len(),
        0 <= j < rows.len(),
        rows[k].id == dto.id,
        rows[j].id != dto.id,
        rows[j].username == dto.username,
    ensures
        update_answer_on(rows, dto) == Ok::<bool, AuthServiceError>(true),
        update_on(rows, dto)[k].username == dto.username,
        update_on(rows, dto)[j].username == dto.username,
        k != j,
{
    lemma_update_succeeds(rows, dto);
}

/// Repeating an update of an existing id answers success again and leaves
/// the table as the first update left it.
pub proof fn lemma_update_is_idempotent(rows: Seq<UserRow>, dto: UserRow)
    requires
        id_present(rows, dto.id),
    ensures
        update_on(update_on(rows, dto), dto) == update_on(rows, dto),
        update_answer_on(update_on(rows, dto), dto) == Ok::<bool, AuthServiceError>(true),
{
    lemma_update_succeeds(rows, dto);
    assert(update_on(update_on(rows, dto), dto) =~= update_on(rows, dto));
}

/// On an empty table, a sign-up followed by an update of the id it answered
/// with answers success, with status 200, and leaves the single row that the
/// update wrote.
pub proof fn lemma_sign_up_then_update(dto: Credentials, fresh_id: i32, changes: UserRow)
    requires
        changes.id == fresh_id,
    ensures
        ({
            let (rows, answer) = sign_up_on(Seq::empty(), dto, fresh_id);
            &&& answer == Ok::<i32, AuthServiceError>(fresh_id)
            &&& update_answer_on(rows, changes) == Ok::<bool, AuthServiceError>(true)
            &&& update_status_of(update_answer_on(rows, changes)) == 200
            &&& update_on(rows, changes) == seq![changes]
        }),
{
    broadcast use Seq::lemma_filter_len;

    let empty = Seq::<UserRow>::empty();
    assert(rows_named(empty, dto.username).len() == 0);
    let rows = sign_up_on(empty, dto, fresh_id).0;
    assert(rows[0].id == fresh_id);
    lemma_update_succeeds(rows, changes);
    assert(update_on(rows, changes) =~= seq![changes]);
}

} // verus!
