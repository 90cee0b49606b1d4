//! The query parameters and form bodies sent to the expense service. The
//! service takes lists of users flattened into keys of the form
//! `users__<index>__<property>`.
use vstd::prelude::*;
use vstd::string::*;

use crate::decimal::{decimal, decimal_of, signed_decimal, signed_decimal_of};
use crate::engine::{copy_text, text_view};
use crate::types::{
    CreateExpenseRequest, CreateGroupRequest, ExpenseShare, GroupUserInput, ListExpensesParams,
    UpdateExpenseRequest,
};

verus! {

/// A value in a form body.
#[derive(Clone, Debug)]
pub enum FormValue {
    Int(i64),
    Text(String),
    Flag(bool),
    Null,
}

/// A form body: keys and values, in the order they were written.
pub type Form = Vec<(String, FormValue)>;

/// A form body with its keys as character sequences.
pub open spec fn form_view(b: Seq<(String, FormValue)>) -> Seq<(Seq<char>, FormValue)> {
    b.map_values(|e: (String, FormValue)| (e.0@, e.1))
}

/// Query parameters with their keys and values as character sequences.
pub open spec fn pairs_view(b: Seq<(String, String)>) -> Seq<(Seq<char>, Seq<char>)> {
    b.map_values(|e: (String, String)| (e.0@, e.1@))
}

/// One entry when the value is there, none otherwise.
pub open spec fn opt_entry<T>(key: Seq<char>, v: Option<T>, f: spec_fn(T) -> FormValue) -> Seq<
    (Seq<char>, FormValue),
> {
    match v {
        Some(x) => seq![(key, f(x))],
        None => Seq::empty(),
    }
}

/// The form value of a text.
pub open spec fn text(s: String) -> FormValue {
    FormValue::Text(s)
}

/// The form value of an integer.
pub open spec fn number(n: i64) -> FormValue {
    FormValue::Int(n)
}

/// The form value of a flag.
pub open spec fn flag(b: bool) -> FormValue {
    FormValue::Flag(b)
}

/// The key of property `prop` of the user at `index` in a flattened list.
pub open spec fn user_key(index: nat, prop: Seq<char>) -> Seq<char> {
    "users__"@ + decimal_of(index) + "__"@ + prop
}

/// Builds the key of property `prop` of the user at `index`.
fn user_key_text(index: u64, prop: &str) -> (r: String)
    ensures
        r@ == user_key(index as nat, prop@),
{
    let r = String::from_str("users__").concat(decimal(index).as_str()).concat("__").concat(prop);
    r
}

/// Appends one entry.
fn put(b: &mut Form, key: String, v: FormValue)
    ensures
        form_view(final(b)@) == form_view(old(b)@).push((key@, v)),
{
    b.push((key, v));
    assert(form_view(b@) =~= form_view(old(b)@).push((key@, v)));
}

/// Appends an entry for a text when it is there.
fn put_text(b: &mut Form, key: String, v: Option<String>)
    ensures
        form_view(final(b)@) == form_view(old(b)@) + opt_entry(key@, v, |s: String| text(s)),
{
    match v {
        Some(s) => put(b, key, FormValue::Text(s)),
        None => {},
    }
    assert(form_view(b@) =~= form_view(old(b)@) + opt_entry(key@, v, |s: String| text(s)));
}

/// Appends an entry for an integer when it is there.
fn put_int(b: &mut Form, key: String, v: Option<i64>)
    ensures
        form_view(final(b)@) == form_view(old(b)@) + opt_entry(key@, v, |n: i64| number(n)),
{
    match v {
        Some(n) => put(b, key, FormValue::Int(n)),
        None => {},
    }
    assert(form_view(b@) =~= form_view(old(b)@) + opt_entry(key@, v, |n: i64| number(n)));
}

/// Appends an entry for a flag when it is there.
fn put_flag(b: &mut Form, key: String, v: Option<bool>)
    ensures
        form_view(final(b)@) == form_view(old(b)@) + opt_entry(key@, v, |x: bool| flag(x)),
{
    match v {
        Some(x) => put(b, key, FormValue::Flag(x)),
        None => {},
    }
    assert(form_view(b@) =~= form_view(old(b)@) + opt_entry(key@, v, |x: bool| flag(x)));
}

/// The entries of one share when an expense is created: the user by id, or
/// else by whichever of email and names are there; then the two amounts.
pub open spec fn create_share_entries(i: nat, s: ExpenseShare) -> Seq<(Seq<char>, FormValue)> {
    (match s.user_id {
        Some(u) => seq![(user_key(i, "user_id"@), number(u))],
        None => opt_entry(user_key(i, "email"@), s.email, |t: String| text(t)) + opt_entry(
            user_key(i, "first_name"@),
            s.first_name,
            |t: String| text(t),
        ) + opt_entry(user_key(i, "last_name"@), s.last_name, |t: String| text(t)),
    }) + seq![
        (user_key(i, "paid_share"@), text(s.paid_share)),
        (user_key(i, "owed_share"@), text(s.owed_share)),
    ]
}

/// The entries of one share when an expense is updated: id and email when
/// there, then the two amounts.
pub open spec fn update_share_entries(i: nat, s: ExpenseShare) -> Seq<(Seq<char>, FormValue)> {
    opt_entry(user_key(i, "user_id"@), s.user_id, |u: i64| number(u)) + opt_entry(
        user_key(i, "email"@),
        s.email,
        |t: String| text(t),
    ) + seq![
        (user_key(i, "paid_share"@), text(s.paid_share)),
        (user_key(i, "owed_share"@), text(s.owed_share)),
    ]
}

/// The entries of every share, flattened by index.
pub open spec fn shares_entries(shares: Seq<ExpenseShare>, creating: bool) -> Seq<
    (Seq<char>, FormValue),
>
    decreases shares.len(),
{
    if shares.len() == 0 {
        Seq::empty()
    } else {
        let i = (shares.len() - 1) as nat;
        shares_entries(shares.drop_last(), creating) + if creating {
            create_share_entries(i, shares.last())
        } else {
            update_share_entries(i, shares.last())
        }
    }
}

/// The entries of one user of a new group.
pub open spec fn group_user_entries(i: nat, u: GroupUserInput) -> Seq<(Seq<char>, FormValue)> {
    opt_entry(user_key(i, "user_id"@), u.user_id, |n: i64| number(n)) + opt_entry(
        user_key(i, "first_name"@),
        u.first_name,
        |t: String| text(t),
    ) + opt_entry(user_key(i, "last_name"@), u.last_name, |t: String| text(t)) + opt_entry(
        user_key(i, "email"@),
        u.email,
        |t: String| text(t),
    )
}

/// The entries of every user of a new group, flattened by index.
pub open spec fn group_users_entries(users: Seq<GroupUserInput>) -> Seq<(Seq<char>, FormValue)>
    decreases users.len(),
{
    if users.len() == 0 {
        Seq::empty()
    } else {
        group_users_entries(users.drop_last()) + group_user_entries(
            (users.len() - 1) as nat,
            users.last(),
        )
    }
}

/// Appends the entries of the user at `i` of a new group.
fn put_group_user(b: &mut Form, i: usize, u: GroupUserInput)
    ensures
        form_view(final(b)@) == form_view(old(b)@) + group_user_entries(i as nat, u),
{
    let ghost gu = u;
    proof {
        reveal_strlit("user_id");
        reveal_strlit("email");
        reveal_strlit("first_name");
        reveal_strlit("last_name");
    }
    let GroupUserInput { user_id, first_name, last_name, email } = u;
    put_int(b, user_key_text(i as u64, "user_id"), user_id);
    put_text(b, user_key_text(i as u64, "first_name"), first_name);
    put_text(b, user_key_text(i as u64, "last_name"), last_name);
    put_text(b, user_key_text(i as u64, "email"), email);
    assert(form_view(b@) =~= form_view(old(b)@) + group_user_entries(i as nat, gu));
}

/// Appends the entries of the share at `i`.
fn put_share(b: &mut Form, i: usize, s: ExpenseShare, creating: bool)
    ensures
        form_view(final(b)@) == form_view(old(b)@) + if creating {
            create_share_entries(i as nat, s)
        } else {
            update_share_entries(i as nat, s)
        },
{
    let ghost sh = s;
    proof {
        reveal_strlit("user_id");
        reveal_strlit("email");
        reveal_strlit("first_name");
        reveal_strlit("last_name");
        reveal_strlit("paid_share");
        reveal_strlit("owed_share");
    }
    let ExpenseShare { user_id, email, first_name, last_name, paid_share, owed_share } = s;
    if creating {
        match user_id {
            Some(u) => put(b, user_key_text(i as u64, "user_id"), FormValue::Int(u)),
            None => {
                put_text(b, user_key_text(i as u64, "email"), email);
                put_text(b, user_key_text(i as u64, "first_name"), first_name);
                put_text(b, user_key_text(i as u64, "last_name"), last_name);
            },
        }
    } else {
        put_int(b, user_key_text(i as u64, "user_id"), user_id);
        put_text(b, user_key_text(i as u64, "email"), email);
    }
    put(b, user_key_text(i as u64, "paid_share"), FormValue::Text(paid_share));
    put(b, user_key_text(i as u64, "owed_share"), FormValue::Text(owed_share));
    proof {
        let e = if creating {
            create_share_entries(i as nat, sh)
        } else {
            update_share_entries(i as nat, sh)
        };
        assert(form_view(b@) =~= form_view(old(b)@) + e);
    }
}

/// Appends the entries of every share.
fn put_shares(b: &mut Form, shares: Vec<ExpenseShare>, creating: bool)
    ensures
        form_view(final(b)@) == form_view(old(b)@) + shares_entries(shares@, creating),
{
    let ghost all = shares@;
    let ghost start = form_view(b@);
    let n = shares.len();
    let mut i: usize = 0;
    for s in it: shares
        invariant
            it.seq() == all,
            n == all.len(),
            i == it.index(),
            form_view(b@) == start + shares_entries(all.take(i as int), creating),
    {
        assert(all.take(i + 1).drop_last() =~= all.take(i as int));
        put_share(b, i, s, creating);
        i = i + 1;
    }
    assert(all.take(all.len() as int) =~= all);
}

/// The body that creates an expense. Without custom shares and with a group,
/// the cost is split equally unless the request says otherwise.
pub open spec fn create_expense_form(r: CreateExpenseRequest) -> Seq<(Seq<char>, FormValue)> {
    seq![("cost"@, text(r.cost)), ("description"@, text(r.description))] + opt_entry(
        "currency_code"@,
        r.currency_code,
        |t: String| text(t),
    ) + opt_entry("category_id"@, r.category_id, |n: i64| number(n)) + opt_entry(
        "date"@,
        r.date,
        |t: String| text(t),
    ) + opt_entry("details"@, r.details, |t: String| text(t)) + opt_entry(
        "payment"@,
        r.payment,
        |x: bool| flag(x),
    ) + (match r.group_id {
        Some(g) => seq![("group_id"@, number(g))] + if r.split_equally != Some(false) {
            seq![("split_equally"@, flag(true))]
        } else {
            Seq::empty()
        },
        None => Seq::empty(),
    }) + match r.split_by_shares {
        Some(shares) => shares_entries(shares@, true),
        None => Seq::empty(),
    }
}

/// Builds the body that creates an expense.
pub fn create_expense_body(r: CreateExpenseRequest) -> (b: Form)
    ensures
        form_view(b@) == create_expense_form(r),
{
    let ghost req = r;
    let CreateExpenseRequest {
        cost,
        description,
        currency_code,
        category_id,
        date,
        repeat_interval: _,
        details,
        payment,
        group_id,
        split_equally,
        split_by_shares,
    } = r;
    let mut b: Form = Vec::new();
    put(&mut b, String::from_str("cost"), FormValue::Text(cost));
    put(&mut b, String::from_str("description"), FormValue::Text(description));
    put_text(&mut b, String::from_str("currency_code"), currency_code);
    put_int(&mut b, String::from_str("category_id"), category_id);
    put_text(&mut b, String::from_str("date"), date);
    put_text(&mut b, String::from_str("details"), details);
    put_flag(&mut b, String::from_str("payment"), payment);
    let ghost upto_payment = form_view(b@);
    match group_id {
        Some(g) => {
            put(&mut b, String::from_str("group_id"), FormValue::Int(g));
            let equal = match split_equally {
                Some(x) => x,
                None => true,
            };
            if equal {
                put(&mut b, String::from_str("split_equally"), FormValue::Flag(true));
            }
        },
        None => {},
    }
    let ghost upto_group = form_view(b@);
    match split_by_shares {
        Some(shares) => put_shares(&mut b, shares, true),
        None => {},
    }
    assert(form_view(b@) =~= create_expense_form(req));
    b
}

/// The body that updates an expense: only the fields that are there.
pub open spec fn update_expense_form(r: UpdateExpenseRequest) -> Seq<(Seq<char>, FormValue)> {
    opt_entry("cost"@, r.cost, |t: String| text(t)) + opt_entry(
        "description"@,
        r.description,
        |t: String| text(t),
    ) + opt_entry("currency_code"@, r.currency_code, |t: String| text(t)) + opt_entry(
        "category_id"@,
        r.category_id,
        |n: i64| number(n),
    ) + opt_entry("date"@, r.date, |t: String| text(t)) + opt_entry(
        "split_equally"@,
        r.split_equally,
        |x: bool| flag(x),
    ) + match r.split_by_shares {
        Some(shares) => shares_entries(shares@, false),
        None => Seq::empty(),
    }
}

/// Builds the body that updates an expense.
pub fn update_expense_body(r: UpdateExpenseRequest) -> (b: Form)
    ensures
        form_view(b@) == update_expense_form(r),
{
    let ghost req = r;
    let UpdateExpenseRequest {
        cost,
        description,
        currency_code,
        category_id,
        date,
        details: _,
        payment: _,
        group_id: _,
        split_equally,
        split_by_shares,
    } = r;
    let mut b: Form = Vec::new();
    put_text(&mut b, String::from_str("cost"), cost);
    put_text(&mut b, String::from_str("description"), description);
    put_text(&mut b, String::from_str("currency_code"), currency_code);
    put_int(&mut b, String::from_str("category_id"), category_id);
    put_text(&mut b, String::from_str("date"), date);
    put_flag(&mut b, String::from_str("split_equally"), split_equally);
    match split_by_shares {
        Some(shares) => put_shares(&mut b, shares, false),
        None => {},
    }
    assert(form_view(b@) =~= update_expense_form(req));
    b
}

/// The body that creates a group.
pub open spec fn create_group_form(r: CreateGroupRequest) -> Seq<(Seq<char>, FormValue)> {
    seq![("name"@, text(r.name))] + opt_entry("group_type"@, r.group_type, |t: String| text(t))
        + opt_entry("simplify_by_default"@, r.simplify_by_default, |x: bool| flag(x))
        + group_users_entries(r.users@)
}

/// Builds the body that creates a group.
pub fn create_group_body(r: CreateGroupRequest) -> (b: Form)
    ensures
        form_view(b@) == create_group_form(r),
{
    let ghost req = r;
    let CreateGroupRequest { name, group_type, simplify_by_default, users } = r;
    let mut b: Form = Vec::new();
    put(&mut b, String::from_str("name"), FormValue::Text(name));
    put_text(&mut b, String::from_str("group_type"), group_type);
    put_flag(&mut b, String::from_str("simplify_by_default"), simplify_by_default);
    let ghost head = form_view(b@);
    let ghost all = users@;
    let n = users.len();
    let mut i: usize = 0;
    for u in it: users
        invariant
            it.seq() == all,
            n == all.len(),
            i == it.index(),
            form_view(b@) == head + group_users_entries(all.take(i as int)),
    {
        assert(all.take(i + 1).drop_last() =~= all.take(i as int));
        put_group_user(&mut b, i, u);
        i = i + 1;
    }
    assert(all.take(all.len() as int) =~= all);
    assert(form_view(b@) =~= create_group_form(req));
    b
}

/// A text, or null when it is absent.
pub open spec fn text_or_null(v: Option<String>) -> FormValue {
    match v {
        Some(s) => FormValue::Text(s),
        None => FormValue::Null,
    }
}

/// The body that adds a user to a group: by id when there is one, else by
/// first name, last name and email, each null when absent.
pub open spec fn add_user_form(group_id: i64, u: GroupUserInput) -> Seq<(Seq<char>, FormValue)> {
    seq![("group_id"@, number(group_id))] + match u.user_id {
        Some(id) => seq![("user_id"@, number(id))],
        None => seq![
            ("first_name"@, text_or_null(u.first_name)),
            ("last_name"@, text_or_null(u.last_name)),
            ("email"@, text_or_null(u.email)),
        ],
    }
}

/// A text, or null when it is absent.
fn text_value(v: Option<String>) -> (r: FormValue)
    ensures
        r == text_or_null(v),
{
    match v {
        Some(s) => FormValue::Text(s),
        None => FormValue::Null,
    }
}

/// Builds the body that adds a user to a group.
pub fn add_user_to_group_body(group_id: i64, u: GroupUserInput) -> (b: Form)
    ensures
        form_view(b@) == add_user_form(group_id, u),
{
    let ghost gu = u;
    let mut b: Form = Vec::new();
    put(&mut b, String::from_str("group_id"), FormValue::Int(group_id));
    let GroupUserInput { user_id, first_name, last_name, email } = u;
    match user_id {
        Some(id) => put(&mut b, String::from_str("user_id"), FormValue::Int(id)),
        None => {
            put(&mut b, String::from_str("first_name"), text_value(first_name));
            put(&mut b, String::from_str("last_name"), text_value(last_name));
            put(&mut b, String::from_str("email"), text_value(email));
        },
    }
    assert(form_view(b@) =~= add_user_form(group_id, gu));
    b
}

/// One query parameter when the value is there.
pub open spec fn opt_pair(key: Seq<char>, v: Option<Seq<char>>) -> Seq<(Seq<char>, Seq<char>)> {
    match v {
        Some(x) => seq![(key, x)],
        None => Seq::empty(),
    }
}

/// The decimal text of an optional integer.
pub open spec fn opt_decimal(v: Option<int>) -> Option<Seq<char>> {
    match v {
        Some(n) => Some(signed_decimal_of(n)),
        None => None,
    }
}

/// An optional `i64` as an optional integer.
pub open spec fn wide64(v: Option<i64>) -> Option<int> {
    match v {
        Some(n) => Some(n as int),
        None => None,
    }
}

/// An optional `i32` as an optional integer.
pub open spec fn wide32(v: Option<i32>) -> Option<int> {
    match v {
        Some(n) => Some(n as int),
        None => None,
    }
}

/// The query parameters of a listing request: each filter and paging value
/// that is there, integers in decimal.
pub open spec fn query_pairs_of(p: ListExpensesParams) -> Seq<(Seq<char>, Seq<char>)> {
    opt_pair("group_id"@, opt_decimal(wide64(p.group_id))) + opt_pair(
        "friend_id"@,
        opt_decimal(wide64(p.friend_id)),
    ) + opt_pair("dated_after"@, text_view(p.dated_after)) + opt_pair(
        "dated_before"@,
        text_view(p.dated_before),
    ) + opt_pair("updated_after"@, text_view(p.updated_after)) + opt_pair(
        "updated_before"@,
        text_view(p.updated_before),
    ) + opt_pair("limit"@, opt_decimal(wide32(p.limit))) + opt_pair(
        "offset"@,
        opt_decimal(wide32(p.offset)),
    )
}

/// Appends a query parameter when the value is there.
fn put_pair(q: &mut Vec<(String, String)>, key: &str, v: Option<String>)
    ensures
        pairs_view(final(q)@) == pairs_view(old(q)@) + opt_pair(key@, text_view(v)),
{
    match v {
        Some(x) => q.push((String::from_str(key), x)),
        None => {},
    }
    assert(pairs_view(q@) =~= pairs_view(old(q)@) + opt_pair(key@, text_view(v)));
}

/// The decimal text of an optional integer.
fn opt_number(v: Option<i64>) -> (r: Option<String>)
    ensures
        text_view(r) == opt_decimal(wide64(v)),
{
    match v {
        Some(n) => Some(signed_decimal(n)),
        None => None,
    }
}

impl ListExpensesParams {
    /// The query parameters of this listing request.
    pub fn query_pairs(&self) -> (r: Vec<(String, String)>)
        ensures
            pairs_view(r@) == query_pairs_of(*self),
    {
        let mut q: Vec<(String, String)> = Vec::new();
        put_pair(&mut q, "group_id", opt_number(self.group_id));
        put_pair(&mut q, "friend_id", opt_number(self.friend_id));
        put_pair(&mut q, "dated_after", copy_text(&self.dated_after));
        put_pair(&mut q, "dated_before", copy_text(&self.dated_before));
        put_pair(&mut q, "updated_after", copy_text(&self.updated_after));
        put_pair(&mut q, "updated_before", copy_text(&self.updated_before));
        let limit = match self.limit {
            Some(l) => Some(l as i64),
            None => None,
        };
        let offset = match self.offset {
            Some(o) => Some(o as i64),
            None => None,
        };
        put_pair(&mut q, "limit", opt_number(limit));
        put_pair(&mut q, "offset", opt_number(offset));
        assert(pairs_view(q@) =~= query_pairs_of(*self));
        q
    }
}

} // verus!
