//! Projection of a record onto the fields that a caller names.
use vstd::prelude::*;

use crate::text::text_eq;
use crate::types::{Expense, ExpenseUser, Receipt, Repayment, UserReference};

verus! {

/// A field of a record that a caller can ask for.
#[derive(Clone, Copy, Debug, PartialEq, Eq, Structural)]
pub enum Field {
    Id,
    Description,
    Cost,
    CurrencyCode,
    Date,
    Category,
    Payment,
    GroupId,
    FriendshipId,
    Details,
    Users,
    Repayments,
    CreatedAt,
    CreatedBy,
    UpdatedAt,
    UpdatedBy,
    DeletedAt,
    DeletedBy,
    Receipt,
    CommentsCount,
    TransactionConfirmed,
    TransactionId,
    TransactionMethod,
    TransactionStatus,
    Repeats,
    RepeatInterval,
    NextRepeat,
    EmailReminder,
    EmailReminderInAdvance,
    ExpenseBundleId,
}

/// The field that a name selects, if any.
pub open spec fn field_of(name: Seq<char>) -> Option<Field> {
    if name == "id"@ {
        Some(Field::Id)
    } else if name == "description"@ {
        Some(Field::Description)
    } else if name == "cost"@ {
        Some(Field::Cost)
    } else if name == "currency_code"@ {
        Some(Field::CurrencyCode)
    } else if name == "date"@ {
        Some(Field::Date)
    } else if name == "category"@ {
        Some(Field::Category)
    } else if name == "payment"@ {
        Some(Field::Payment)
    } else if name == "group_id"@ {
        Some(Field::GroupId)
    } else if name == "friendship_id"@ {
        Some(Field::FriendshipId)
    } else if name == "details"@ {
        Some(Field::Details)
    } else if name == "users"@ {
        Some(Field::Users)
    } else if name == "repayments"@ {
        Some(Field::Repayments)
    } else if name == "created_at"@ {
        Some(Field::CreatedAt)
    } else if name == "created_by"@ {
        Some(Field::CreatedBy)
    } else if name == "updated_at"@ {
        Some(Field::UpdatedAt)
    } else if name == "updated_by"@ {
        Some(Field::UpdatedBy)
    } else if name == "deleted_at"@ {
        Some(Field::DeletedAt)
    } else if name == "deleted_by"@ {
        Some(Field::DeletedBy)
    } else if name == "receipt"@ {
        Some(Field::Receipt)
    } else if name == "comments_count"@ {
        Some(Field::CommentsCount)
    } else if name == "transaction_confirmed"@ {
        Some(Field::TransactionConfirmed)
    } else if name == "transaction_id"@ {
        Some(Field::TransactionId)
    } else if name == "transaction_method"@ {
        Some(Field::TransactionMethod)
    } else if name == "transaction_status"@ {
        Some(Field::TransactionStatus)
    } else if name == "repeats"@ {
        Some(Field::Repeats)
    } else if name == "repeat_interval"@ {
        Some(Field::RepeatInterval)
    } else if name == "next_repeat"@ {
        Some(Field::NextRepeat)
    } else if name == "email_reminder"@ {
        Some(Field::EmailReminder)
    } else if name == "email_reminder_in_advance"@ {
        Some(Field::EmailReminderInAdvance)
    } else if name == "expense_bundle_id"@ {
        Some(Field::ExpenseBundleId)
    } else {
        None
    }
}

/// The name of a field, as a key of the projected record.
pub open spec fn field_name(f: Field) -> Seq<char> {
    match f {
        Field::Id => "id"@,
        Field::Description => "description"@,
        Field::Cost => "cost"@,
        Field::CurrencyCode => "currency_code"@,
        Field::Date => "date"@,
        Field::Category => "category"@,
        Field::Payment => "payment"@,
        Field::GroupId => "group_id"@,
        Field::FriendshipId => "friendship_id"@,
        Field::Details => "details"@,
        Field::Users => "users"@,
        Field::Repayments => "repayments"@,
        Field::CreatedAt => "created_at"@,
        Field::CreatedBy => "created_by"@,
        Field::UpdatedAt => "updated_at"@,
        Field::UpdatedBy => "updated_by"@,
        Field::DeletedAt => "deleted_at"@,
        Field::DeletedBy => "deleted_by"@,
        Field::Receipt => "receipt"@,
        Field::CommentsCount => "comments_count"@,
        Field::TransactionConfirmed => "transaction_confirmed"@,
        Field::TransactionId => "transaction_id"@,
        Field::TransactionMethod => "transaction_method"@,
        Field::TransactionStatus => "transaction_status"@,
        Field::Repeats => "repeats"@,
        Field::RepeatInterval => "repeat_interval"@,
        Field::NextRepeat => "next_repeat"@,
        Field::EmailReminder => "email_reminder"@,
        Field::EmailReminderInAdvance => "email_reminder_in_advance"@,
        Field::ExpenseBundleId => "expense_bundle_id"@,
    }
}

impl Field {
    /// Reads a field from its name.
    pub fn from_name(name: &str) -> (r: Option<Field>)
        ensures
            r == field_of(name@),
    {
        if text_eq(name, "id") {
            Some(Field::Id)
        } else if text_eq(name, "description") {
            Some(Field::Description)
        } else if text_eq(name, "cost") {
            Some(Field::Cost)
        } else if text_eq(name, "currency_code") {
            Some(Field::CurrencyCode)
        } else if text_eq(name, "date") {
            Some(Field::Date)
        } else if text_eq(name, "category") {
            Some(Field::Category)
        } else if text_eq(name, "payment") {
            Some(Field::Payment)
        } else if text_eq(name, "group_id") {
            Some(Field::GroupId)
        } else if text_eq(name, "friendship_id") {
            Some(Field::FriendshipId)
        } else if text_eq(name, "details") {
            Some(Field::Details)
        } else if text_eq(name, "users") {
            Some(Field::Users)
        } else if text_eq(name, "repayments") {
            Some(Field::Repayments)
        } else if text_eq(name, "created_at") {
            Some(Field::CreatedAt)
        } else if text_eq(name, "created_by") {
            Some(Field::CreatedBy)
        } else if text_eq(name, "updated_at") {
            Some(Field::UpdatedAt)
        } else if text_eq(name, "updated_by") {
            Some(Field::UpdatedBy)
        } else if text_eq(name, "deleted_at") {
            Some(Field::DeletedAt)
        } else if text_eq(name, "deleted_by") {
            Some(Field::DeletedBy)
        } else if text_eq(name, "receipt") {
            Some(Field::Receipt)
        } else if text_eq(name, "comments_count") {
            Some(Field::CommentsCount)
        } else if text_eq(name, "transaction_confirmed") {
            Some(Field::TransactionConfirmed)
        } else if text_eq(name, "transaction_id") {
            Some(Field::TransactionId)
        } else if text_eq(name, "transaction_method") {
            Some(Field::TransactionMethod)
        } else if text_eq(name, "transaction_status") {
            Some(Field::TransactionStatus)
        } else if text_eq(name, "repeats") {
            Some(Field::Repeats)
        } else if text_eq(name, "repeat_interval") {
            Some(Field::RepeatInterval)
        } else if text_eq(name, "next_repeat") {
            Some(Field::NextRepeat)
        } else if text_eq(name, "email_reminder") {
            Some(Field::EmailReminder)
        } else if text_eq(name, "email_reminder_in_advance") {
            Some(Field::EmailReminderInAdvance)
        } else if text_eq(name, "expense_bundle_id") {
            Some(Field::ExpenseBundleId)
        } else {
            None
        }
    }

    /// The name of the field, as a key of the projected record.
    pub fn name(&self) -> (r: &'static str)
        ensures
            r@ == field_name(*self),
    {
        match self {
            Field::Id => "id",
            Field::Description => "description",
            Field::Cost => "cost",
            Field::CurrencyCode => "currency_code",
            Field::Date => "date",
            Field::Category => "category",
            Field::Payment => "payment",
            Field::GroupId => "group_id",
            Field::FriendshipId => "friendship_id",
            Field::Details => "details",
            Field::Users => "users",
            Field::Repayments => "repayments",
            Field::CreatedAt => "created_at",
            Field::CreatedBy => "created_by",
            Field::UpdatedAt => "updated_at",
            Field::UpdatedBy => "updated_by",
            Field::DeletedAt => "deleted_at",
            Field::DeletedBy => "deleted_by",
            Field::Receipt => "receipt",
            Field::CommentsCount => "comments_count",
            Field::TransactionConfirmed => "transaction_confirmed",
            Field::TransactionId => "transaction_id",
            Field::TransactionMethod => "transaction_method",
            Field::TransactionStatus => "transaction_status",
            Field::Repeats => "repeats",
            Field::RepeatInterval => "repeat_interval",
            Field::NextRepeat => "next_repeat",
            Field::EmailReminder => "email_reminder",
            Field::EmailReminderInAdvance => "email_reminder_in_advance",
            Field::ExpenseBundleId => "expense_bundle_id",
        }
    }
}

/// A category reduced to its id and name.
#[derive(Clone, Debug)]
pub struct CategorySummary {
    pub id: i64,
    pub name: String,
}

/// A record projected onto a set of fields: each member is `Some` exactly
/// when its field is in the output. `deleted_at` and `deleted_by` are left out
/// when the record has no value for them; every other requested field is
/// written with the record's value, which may itself be absent.
#[derive(Clone, Debug)]
pub struct Projection {
    pub id: Option<i64>,
    pub description: Option<String>,
    pub cost: Option<String>,
    pub currency_code: Option<String>,
    pub date: Option<String>,
    pub category: Option<CategorySummary>,
    pub payment: Option<bool>,
    pub group_id: Option<Option<i64>>,
    pub friendship_id: Option<Option<i64>>,
    pub details: Option<Option<String>>,
    pub users: Option<Vec<ExpenseUser>>,
    pub repayments: Option<Vec<Repayment>>,
    pub created_at: Option<String>,
    pub created_by: Option<UserReference>,
    pub updated_at: Option<String>,
    pub updated_by: Option<Option<UserReference>>,
    pub deleted_at: Option<String>,
    pub deleted_by: Option<UserReference>,
    pub receipt: Option<Receipt>,
    pub comments_count: Option<i32>,
    pub transaction_confirmed: Option<bool>,
    pub transaction_id: Option<Option<String>>,
    pub transaction_method: Option<Option<String>>,
    pub transaction_status: Option<Option<String>>,
    pub repeats: Option<bool>,
    pub repeat_interval: Option<Option<String>>,
    pub next_repeat: Option<Option<String>>,
    pub email_reminder: Option<bool>,
    pub email_reminder_in_advance: Option<Option<i32>>,
    pub expense_bundle_id: Option<Option<i64>>,
}

impl Projection {
    /// Whether field `f` is present in the projection.
    pub open spec fn has(self, f: Field) -> bool {
        match f {
            Field::Id => self.id is Some,
            Field::Description => self.description is Some,
            Field::Cost => self.cost is Some,
            Field::CurrencyCode => self.currency_code is Some,
            Field::Date => self.date is Some,
            Field::Category => self.category is Some,
            Field::Payment => self.payment is Some,
            Field::GroupId => self.group_id is Some,
            Field::FriendshipId => self.friendship_id is Some,
            Field::Details => self.details is Some,
            Field::Users => self.users is Some,
            Field::Repayments => self.repayments is Some,
            Field::CreatedAt => self.created_at is Some,
            Field::CreatedBy => self.created_by is Some,
            Field::UpdatedAt => self.updated_at is Some,
            Field::UpdatedBy => self.updated_by is Some,
            Field::DeletedAt => self.deleted_at is Some,
            Field::DeletedBy => self.deleted_by is Some,
            Field::Receipt => self.receipt is Some,
            Field::CommentsCount => self.comments_count is Some,
            Field::TransactionConfirmed => self.transaction_confirmed is Some,
            Field::TransactionId => self.transaction_id is Some,
            Field::TransactionMethod => self.transaction_method is Some,
            Field::TransactionStatus => self.transaction_status is Some,
            Field::Repeats => self.repeats is Some,
            Field::RepeatInterval => self.repeat_interval is Some,
            Field::NextRepeat => self.next_repeat is Some,
            Field::EmailReminder => self.email_reminder is Some,
            Field::EmailReminderInAdvance => self.email_reminder_in_advance is Some,
            Field::ExpenseBundleId => self.expense_bundle_id is Some,
        }
    }

    /// The fields present in the projection.
    pub open spec fn keys(self) -> Set<Field> {
        Set::new(|f: Field| self.has(f))
    }
}

/// `Some(v)` when `wanted`, else `None`.
pub open spec fn keep<T>(wanted: bool, v: T) -> Option<T> {
    if wanted {
        Some(v)
    } else {
        None
    }
}

/// Whether some name among `names` selects `f`.
pub open spec fn requested(names: Seq<String>, f: Field) -> bool {
    exists|i: int| 0 <= i < names.len() && field_of(#[trigger] names[i]@) == Some(f)
}

/// The projection of `e` when the fields for which `wants` holds are asked for.
pub open spec fn projection_of(e: Expense, wants: spec_fn(Field) -> bool) -> Projection {
    Projection {
        id: keep(wants(Field::Id), e.id),
        description: keep(wants(Field::Description), e.description),
        cost: keep(wants(Field::Cost), e.cost),
        currency_code: keep(wants(Field::CurrencyCode), e.currency_code),
        date: keep(wants(Field::Date), e.date),
        category: keep(wants(Field::Category), CategorySummary { id: e.category.id, name: e.category.name }),
        payment: keep(wants(Field::Payment), e.payment),
        group_id: keep(wants(Field::GroupId), e.group_id),
        friendship_id: keep(wants(Field::FriendshipId), e.friendship_id),
        details: keep(wants(Field::Details), e.details),
        users: keep(wants(Field::Users), e.users),
        repayments: keep(wants(Field::Repayments), e.repayments),
        created_at: keep(wants(Field::CreatedAt), e.created_at),
        created_by: keep(wants(Field::CreatedBy), e.created_by),
        updated_at: keep(wants(Field::UpdatedAt), e.updated_at),
        updated_by: keep(wants(Field::UpdatedBy), e.updated_by),
        deleted_at: if wants(Field::DeletedAt) { e.deleted_at } else { None },
        deleted_by: if wants(Field::DeletedBy) { e.deleted_by } else { None },
        receipt: keep(wants(Field::Receipt), e.receipt),
        comments_count: keep(wants(Field::CommentsCount), e.comments_count),
        transaction_confirmed: keep(wants(Field::TransactionConfirmed), e.transaction_confirmed),
        transaction_id: keep(wants(Field::TransactionId), e.transaction_id),
        transaction_method: keep(wants(Field::TransactionMethod), e.transaction_method),
        transaction_status: keep(wants(Field::TransactionStatus), e.transaction_status),
        repeats: keep(wants(Field::Repeats), e.repeats),
        repeat_interval: keep(wants(Field::RepeatInterval), e.repeat_interval),
        next_repeat: keep(wants(Field::NextRepeat), e.next_repeat),
        email_reminder: keep(wants(Field::EmailReminder), e.email_reminder),
        email_reminder_in_advance: keep(wants(Field::EmailReminderInAdvance), e.email_reminder_in_advance),
        expense_bundle_id: keep(wants(Field::ExpenseBundleId), e.expense_bundle_id),
    }
}

/// A set of requested fields.
pub struct FieldSet {
    pub fields: Vec<Field>,
}

impl FieldSet {
    /// The fields that `names` select; unknown names are ignored.
    pub fn from_names(names: &Vec<String>) -> (r: FieldSet)
        ensures
            forall|f: Field| r.fields@.contains(f) <==> requested(names@, f),
    {
        let mut fields: Vec<Field> = Vec::new();
        let n = names.len();
        for i in 0..n
            invariant
                n == names@.len(),
                forall|f: Field| fields@.contains(f) <==> requested(names@.take(i as int), f),
        {
            let ghost before = fields@;
            match Field::from_name(names[i].as_str()) {
                Some(f) => fields.push(f),
                None => {},
            }
            assert forall|f: Field| fields@.contains(f) <==> requested(names@.take(i + 1), f) by {
                if requested(names@.take(i + 1), f) {
                    let j = choose|j: int| 0 <= j < i + 1 && field_of(#[trigger] names@.take(i + 1)[j]@) == Some(f);
                    if j < i {
                        assert(names@.take(i as int)[j] == names@.take(i + 1)[j]);
                        assert(before.contains(f));
                        let k = choose|k: int| 0 <= k < before.len() && before[k] == f;
                        assert(fields@[k] == f);
                    } else {
                        assert(fields@.last() == f);
                    }
                }
                if fields@.contains(f) {
                    let k = choose|k: int| 0 <= k < fields@.len() && fields@[k] == f;
                    if k < before.len() {
                        assert(before[k] == f);
                        assert(before.contains(f));
                        assert(requested(names@.take(i as int), f));
                        let j = choose|j: int| 0 <= j < i && field_of(#[trigger] names@.take(i as int)[j]@) == Some(f);
                        assert(names@.take(i + 1)[j] == names@.take(i as int)[j]);
                    } else {
                        assert(names@.take(i + 1)[i as int] == names@[i as int]);
                    }
                }
            }
        }
        assert(names@.take(n as int) =~= names@);
        FieldSet { fields }
    }

    /// Whether `f` is in the set.
    pub fn has(&self, f: Field) -> (r: bool)
        ensures
            r == self.fields@.contains(f),
    {
        let n = self.fields.len();
        for i in 0..n
            invariant
                n == self.fields@.len(),
                forall|k: int| 0 <= k < i ==> self.fields@[k] != f,
        {
            if self.fields[i] == f {
                assert(self.fields@[i as int] == f);
                return true;
            }
        }
        false
    }
}

/// Projects a record onto the fields in `set`.
pub fn project(e: Expense, set: &FieldSet) -> (r: Projection)
    ensures
        r == projection_of(e, |f: Field| set.fields@.contains(f)),
{
    let Expense {
        id,
        group_id,
        friendship_id,
        expense_bundle_id,
        description,
        repeats,
        repeat_interval,
        email_reminder,
        email_reminder_in_advance,
        next_repeat,
        details,
        comments_count,
        payment,
        creation_method,
        transaction_method,
        transaction_confirmed,
        transaction_id,
        transaction_status,
        cost,
        currency_code,
        repayments,
        date,
        created_at,
        created_by,
        updated_at,
        updated_by,
        deleted_at,
        deleted_by,
        category,
        receipt,
        users,
    } = e;
    let p_id = if set.has(Field::Id) {
        Some(id)
    } else {
        None
    };
    let p_description = if set.has(Field::Description) {
        Some(description)
    } else {
        None
    };
    let p_cost = if set.has(Field::Cost) {
        Some(cost)
    } else {
        None
    };
    let p_currency_code = if set.has(Field::CurrencyCode) {
        Some(currency_code)
    } else {
        None
    };
    let p_date = if set.has(Field::Date) {
        Some(date)
    } else {
        None
    };
    let p_category = if set.has(Field::Category) {
        Some(CategorySummary { id: category.id, name: category.name })
    } else {
        None
    };
    let p_payment = if set.has(Field::Payment) {
        Some(payment)
    } else {
        None
    };
    let p_group_id = if set.has(Field::GroupId) {
        Some(group_id)
    } else {
        None
    };
    let p_friendship_id = if set.has(Field::FriendshipId) {
        Some(friendship_id)
    } else {
        None
    };
    let p_details = if set.has(Field::Details) {
        Some(details)
    } else {
        None
    };
    let p_users = if set.has(Field::Users) {
        Some(users)
    } else {
        None
    };
    let p_repayments = if set.has(Field::Repayments) {
        Some(repayments)
    } else {
        None
    };
    let p_created_at = if set.has(Field::CreatedAt) {
        Some(created_at)
    } else {
        None
    };
    let p_created_by = if set.has(Field::CreatedBy) {
        Some(created_by)
    } else {
        None
    };
    let p_updated_at = if set.has(Field::UpdatedAt) {
        Some(updated_at)
    } else {
        None
    };
    let p_updated_by = if set.has(Field::UpdatedBy) {
        Some(updated_by)
    } else {
        None
    };
    let p_deleted_at = if set.has(Field::DeletedAt) {
        deleted_at
    } else {
        None
    };
    let p_deleted_by = if set.has(Field::DeletedBy) {
        deleted_by
    } else {
        None
    };
    let p_receipt = if set.has(Field::Receipt) {
        Some(receipt)
    } else {
        None
    };
    let p_comments_count = if set.has(Field::CommentsCount) {
        Some(comments_count)
    } else {
        None
    };
    let p_transaction_confirmed = if set.has(Field::TransactionConfirmed) {
        Some(transaction_confirmed)
    } else {
        None
    };
    let p_transaction_id = if set.has(Field::TransactionId) {
        Some(transaction_id)
    } else {
        None
    };
    let p_transaction_method = if set.has(Field::TransactionMethod) {
        Some(transaction_method)
    } else {
        None
    };
    let p_transaction_status = if set.has(Field::TransactionStatus) {
        Some(transaction_status)
    } else {
        None
    };
    let p_repeats = if set.has(Field::Repeats) {
        Some(repeats)
    } else {
        None
    };
    let p_repeat_interval = if set.has(Field::RepeatInterval) {
        Some(repeat_interval)
    } else {
        None
    };
    let p_next_repeat = if set.has(Field::NextRepeat) {
        Some(next_repeat)
    } else {
        None
    };
    let p_email_reminder = if set.has(Field::EmailReminder) {
        Some(email_reminder)
    } else {
        None
    };
    let p_email_reminder_in_advance = if set.has(Field::EmailReminderInAdvance) {
        Some(email_reminder_in_advance)
    } else {
        None
    };
    let p_expense_bundle_id = if set.has(Field::ExpenseBundleId) {
        Some(expense_bundle_id)
    } else {
        None
    };
    Projection {
        id: p_id,
        description: p_description,
        cost: p_cost,
        currency_code: p_currency_code,
        date: p_date,
        category: p_category,
        payment: p_payment,
        group_id: p_group_id,
        friendship_id: p_friendship_id,
        details: p_details,
        users: p_users,
        repayments: p_repayments,
        created_at: p_created_at,
        created_by: p_created_by,
        updated_at: p_updated_at,
        updated_by: p_updated_by,
        deleted_at: p_deleted_at,
        deleted_by: p_deleted_by,
        receipt: p_receipt,
        comments_count: p_comments_count,
        transaction_confirmed: p_transaction_confirmed,
        transaction_id: p_transaction_id,
        transaction_method: p_transaction_method,
        transaction_status: p_transaction_status,
        repeats: p_repeats,
        repeat_interval: p_repeat_interval,
        next_repeat: p_next_repeat,
        email_reminder: p_email_reminder,
        email_reminder_in_advance: p_email_reminder_in_advance,
        expense_bundle_id: p_expense_bundle_id,
    }
}

/// Projects each record onto the fields in `set`, keeping their order.
pub fn project_all(records: Vec<Expense>, set: &FieldSet) -> (r: Vec<Projection>)
    ensures
        r@.len() == records@.len(),
        forall|i: int|
            0 <= i < r@.len() ==> #[trigger] r@[i] == projection_of(
                records@[i],
                |f: Field| set.fields@.contains(f),
            ),
{
    let ghost recs = records@;
    let mut out: Vec<Projection> = Vec::new();
    for e in it: records
        invariant
            it.seq() == recs,
            out@.len() == it.index(),
            forall|i: int|
                0 <= i < out@.len() ==> #[trigger] out@[i] == projection_of(
                    recs[i],
                    |f: Field| set.fields@.contains(f),
                ),
    {
        out.push(project(e, set));
    }
    out
}

/// The names `id` and `deleted_at` select their fields.
proof fn lemma_id_and_deleted_at_names()
    ensures
        field_of("id"@) == Some(Field::Id),
        field_of("deleted_at"@) == Some(Field::DeletedAt),
{
    reveal_strlit("deleted_at");
    reveal_strlit("id");
    reveal_strlit("description");
    reveal_strlit("cost");
    reveal_strlit("currency_code");
    reveal_strlit("date");
    reveal_strlit("category");
    reveal_strlit("payment");
    reveal_strlit("group_id");
    reveal_strlit("friendship_id");
    reveal_strlit("details");
    reveal_strlit("users");
    reveal_strlit("repayments");
    reveal_strlit("created_at");
    reveal_strlit("created_by");
    reveal_strlit("updated_at");
    reveal_strlit("updated_by");
    assert("deleted_at"@.len() != "id"@.len());
    assert("deleted_at"@.len() != "description"@.len());
    assert("deleted_at"@.len() != "cost"@.len());
    assert("deleted_at"@.len() != "currency_code"@.len());
    assert("deleted_at"@.len() != "date"@.len());
    assert("deleted_at"@.len() != "category"@.len());
    assert("deleted_at"@.len() != "payment"@.len());
    assert("deleted_at"@.len() != "group_id"@.len());
    assert("deleted_at"@.len() != "friendship_id"@.len());
    assert("deleted_at"@.len() != "details"@.len());
    assert("deleted_at"@.len() != "users"@.len());
    assert("deleted_at"@[0] != "repayments"@[0]);
    assert("deleted_at"@[0] != "created_at"@[0]);
    assert("deleted_at"@[0] != "created_by"@[0]);
    assert("deleted_at"@[0] != "updated_at"@[0]);
    assert("deleted_at"@[0] != "updated_by"@[0]);
}

/// A projection holds a requested field unless it is a deletion field that
/// the record has no value for, and holds no other field.
pub proof fn lemma_projection_keys(e: Expense, wants: spec_fn(Field) -> bool)
    ensures
        forall|f: Field| #[trigger]
            projection_of(e, wants).keys().contains(f) <==> wants(f) && (f == Field::DeletedAt
                ==> e.deleted_at is Some) && (f == Field::DeletedBy ==> e.deleted_by is Some),
{
    let p = projection_of(e, wants);
    assert forall|f: Field| #[trigger]
        p.keys().contains(f) <==> wants(f) && (f == Field::DeletedAt ==> e.deleted_at is Some)
            && (f == Field::DeletedBy ==> e.deleted_by is Some) by {
        match f {
            Field::Id => {},
            Field::Description => {},
            Field::Cost => {},
            Field::CurrencyCode => {},
            Field::Date => {},
            Field::Category => {},
            Field::Payment => {},
            Field::GroupId => {},
            Field::FriendshipId => {},
            Field::Details => {},
            Field::Users => {},
            Field::Repayments => {},
            Field::CreatedAt => {},
            Field::CreatedBy => {},
            Field::UpdatedAt => {},
            Field::UpdatedBy => {},
            Field::DeletedAt => {},
            Field::DeletedBy => {},
            Field::Receipt => {},
            Field::CommentsCount => {},
            Field::TransactionConfirmed => {},
            Field::TransactionId => {},
            Field::TransactionMethod => {},
            Field::TransactionStatus => {},
            Field::Repeats => {},
            Field::RepeatInterval => {},
            Field::NextRepeat => {},
            Field::EmailReminder => {},
            Field::EmailReminderInAdvance => {},
            Field::ExpenseBundleId => {},
        }
    }
}

/// Exactly `Id` and `DeletedAt` are requested by the names `id` and `deleted_at`.
proof fn lemma_requested_id_and_deleted_at(names: Seq<String>)
    requires
        names.len() == 2,
        names[0]@ == "id"@,
        names[1]@ == "deleted_at"@,
    ensures
        forall|f: Field| requested(names, f) <==> (f == Field::Id || f == Field::DeletedAt),
{
    lemma_id_and_deleted_at_names();
    assert forall|f: Field| requested(names, f) <==> (f == Field::Id || f == Field::DeletedAt) by {
        if f == Field::Id {
            assert(field_of(names[0]@) == Some(f));
        }
        if f == Field::DeletedAt {
            assert(field_of(names[1]@) == Some(f));
        }
    }
}

/// Asking for `id` and `deleted_at` gives exactly the key `id` for a record
/// that is not deleted, and exactly `id` and `deleted_at` for one that is.
pub proof fn lemma_deletion_key_follows_marker(e: Expense, names: Seq<String>)
    requires
        names.len() == 2,
        names[0]@ == "id"@,
        names[1]@ == "deleted_at"@,
    ensures
        ({
            let p = projection_of(e, |f: Field| requested(names, f));
            &&& p.id == Some(e.id)
            &&& e.deleted_at is None ==> p.keys() == set![Field::Id]
            &&& e.deleted_at is Some ==> p.deleted_at == e.deleted_at && p.keys() == set![
                Field::Id,
                Field::DeletedAt,
            ]
        }),
{
    lemma_requested_id_and_deleted_at(names);
    let two = |f: Field| f == Field::Id || f == Field::DeletedAt;
    assert((|f: Field| requested(names, f)) =~= two);
    let p = projection_of(e, two);
    lemma_projection_keys(e, two);
    if e.deleted_at is None {
        assert(p.keys() =~= set![Field::Id]);
    } else {
        assert(p.keys() =~= set![Field::Id, Field::DeletedAt]);
    }
}

} // verus!
