use vstd::prelude::*;
use crate::error::FdwError;
use crate::text::{cols_view, owned, str_eq};

verus! {

/// The closed set of object types the registry knows. Each maps to one
/// upstream path and one column schema.
#[derive(Clone, Copy, Debug, PartialEq, Eq, Structural)]
pub enum ObjectType {
    Balance,
    BalanceTransactions,
    Charges,
    Customers,
    Invoices,
    PaymentIntents,
    Subscriptions,
}

/// The semantic type of one schema field.
#[derive(Clone, Copy, Debug, PartialEq, Eq, Structural)]
pub enum FieldType {
    Int64,
    Text,
    Timestamp,
}

/// Which object type a name resolves to; `None` for a name outside the
/// registry.
pub open spec fn spec_parse_object(name: Seq<char>) -> Option<ObjectType> {
    if name == "balance"@ {
        Some(ObjectType::Balance)
    } else if name == "balance_transactions"@ {
        Some(ObjectType::BalanceTransactions)
    } else if name == "charges"@ {
        Some(ObjectType::Charges)
    } else if name == "customers"@ {
        Some(ObjectType::Customers)
    } else if name == "invoices"@ {
        Some(ObjectType::Invoices)
    } else if name == "payment_intents"@ {
        Some(ObjectType::PaymentIntents)
    } else if name == "subscriptions"@ {
        Some(ObjectType::Subscriptions)
    } else {
        None
    }
}

/// The upstream path segment of an object type.
pub open spec fn spec_path(o: ObjectType) -> Seq<char> {
    match o {
        ObjectType::Balance => "balance"@,
        ObjectType::BalanceTransactions => "balance_transactions"@,
        ObjectType::Charges => "charges"@,
        ObjectType::Customers => "customers"@,
        ObjectType::Invoices => "invoices"@,
        ObjectType::PaymentIntents => "payment_intents"@,
        ObjectType::Subscriptions => "subscriptions"@,
    }
}

/// A singleton object type answers with a single object rather than a
/// paginated collection, and takes no pagination parameters.
pub open spec fn spec_is_singleton(o: ObjectType) -> bool {
    o == ObjectType::Balance
}

/// The response key under which a collection's elements sit.
pub open spec fn spec_obj_key(o: ObjectType) -> Seq<char> {
    match o {
        ObjectType::Balance => "available"@,
        _ => "data"@,
    }
}

/// The ordered field schema of an object type.
pub open spec fn spec_fields(o: ObjectType) -> Seq<(Seq<char>, FieldType)> {
    match o {
        ObjectType::Balance => seq![
            ("amount"@, FieldType::Int64),
            ("currency"@, FieldType::Text),
        ],
        ObjectType::BalanceTransactions => seq![
            ("id"@, FieldType::Text),
            ("amount"@, FieldType::Int64),
            ("currency"@, FieldType::Text),
            ("description"@, FieldType::Text),
            ("fee"@, FieldType::Int64),
            ("net"@, FieldType::Int64),
            ("status"@, FieldType::Text),
            ("type"@, FieldType::Text),
            ("created"@, FieldType::Timestamp),
        ],
        ObjectType::Charges => seq![
            ("id"@, FieldType::Text),
            ("amount"@, FieldType::Int64),
            ("currency"@, FieldType::Text),
            ("customer"@, FieldType::Text),
            ("description"@, FieldType::Text),
            ("invoice"@, FieldType::Text),
            ("payment_intent"@, FieldType::Text),
            ("status"@, FieldType::Text),
            ("created"@, FieldType::Timestamp),
        ],
        ObjectType::Customers => seq![
            ("id"@, FieldType::Text),
            ("email"@, FieldType::Text),
        ],
        ObjectType::Invoices => seq![
            ("id"@, FieldType::Text),
            ("customer"@, FieldType::Text),
            ("subscription"@, FieldType::Text),
            ("status"@, FieldType::Text),
            ("total"@, FieldType::Int64),
            ("currency"@, FieldType::Text),
            ("period_start"@, FieldType::Timestamp),
            ("period_end"@, FieldType::Timestamp),
        ],
        ObjectType::PaymentIntents => seq![
            ("id"@, FieldType::Text),
            ("customer"@, FieldType::Text),
            ("amount"@, FieldType::Int64),
            ("currency"@, FieldType::Text),
            ("payment_method"@, FieldType::Text),
            ("created"@, FieldType::Timestamp),
        ],
        ObjectType::Subscriptions => seq![
            ("id"@, FieldType::Text),
            ("customer"@, FieldType::Text),
            ("currency"@, FieldType::Text),
            ("current_period_start"@, FieldType::Timestamp),
            ("current_period_end"@, FieldType::Timestamp),
        ],
    }
}

/// The whitelist of fields whose equality predicates may be forwarded
/// upstream for an object type. Only fields verified as supported upstream
/// list filters appear here; forwarding anything else could silently change
/// result semantics.
pub open spec fn spec_pushdown_fields(o: ObjectType) -> Seq<Seq<char>> {
    match o {
        ObjectType::Balance => Seq::empty(),
        ObjectType::BalanceTransactions => seq!["payout"@, "type"@],
        ObjectType::Charges => seq!["customer"@],
        ObjectType::Customers => seq!["email"@],
        ObjectType::Invoices => seq!["customer"@, "status"@, "subscription"@],
        ObjectType::PaymentIntents => seq!["customer"@],
        ObjectType::Subscriptions => seq!["customer"@, "price"@, "status"@],
    }
}

impl ObjectType {
    /// Resolves an object type name, failing on a name outside the registry.
    pub fn parse(name: &str) -> (r: Option<ObjectType>)
        ensures
            r == spec_parse_object(name@),
    {
        if str_eq(name, "balance") {
            Some(ObjectType::Balance)
        } else if str_eq(name, "balance_transactions") {
            Some(ObjectType::BalanceTransactions)
        } else if str_eq(name, "charges") {
            Some(ObjectType::Charges)
        } else if str_eq(name, "customers") {
            Some(ObjectType::Customers)
        } else if str_eq(name, "invoices") {
            Some(ObjectType::Invoices)
        } else if str_eq(name, "payment_intents") {
            Some(ObjectType::PaymentIntents)
        } else if str_eq(name, "subscriptions") {
            Some(ObjectType::Subscriptions)
        } else {
            None
        }
    }

    /// The upstream path segment of this object type.
    pub fn path(self) -> (r: &'static str)
        ensures
            r@ == spec_path(self),
    {
        match self {
            ObjectType::Balance => "balance",
            ObjectType::BalanceTransactions => "balance_transactions",
            ObjectType::Charges => "charges",
            ObjectType::Customers => "customers",
            ObjectType::Invoices => "invoices",
            ObjectType::PaymentIntents => "payment_intents",
            ObjectType::Subscriptions => "subscriptions",
        }
    }

    /// Whether this object type is a singleton.
    pub fn is_singleton(self) -> (r: bool)
        ensures
            r == spec_is_singleton(self),
    {
        match self {
            ObjectType::Balance => true,
            _ => false,
        }
    }
}

/// The views of a field list.
pub open spec fn fields_view(s: Seq<(String, FieldType)>) -> Seq<(Seq<char>, FieldType)> {
    Seq::new(s.len(), |i: int| (s[i].0@, s[i].1))
}

/// The per-object-type schema record: the response locator, the ordered
/// field list, and the pushdown whitelist. Built once per scan by `lookup`
/// and read-only afterwards.
pub struct ObjectSchema {
    pub obj: ObjectType,
    pub obj_key: String,
    pub fields: Vec<(String, FieldType)>,
    pub pushdown: Vec<String>,
}

impl ObjectSchema {
    /// The record matches the registry entry of its object type.
    pub open spec fn wf(&self) -> bool {
        &&& self.obj_key@ == spec_obj_key(self.obj)
        &&& fields_view(self.fields@) == spec_fields(self.obj)
        &&& cols_view(self.pushdown@) == spec_pushdown_fields(self.obj)
    }
}

/// Appends one named field to a field list under construction.
fn put_field(v: &mut Vec<(String, FieldType)>, name: &str, t: FieldType)
    ensures
        fields_view(final(v)@) == fields_view(old(v)@).push((name@, t)),
{
    let ghost before = fields_view(v@);
    v.push((owned(name), t));
    proof {
        assert(fields_view(v@) =~= before.push((name@, t)));
    }
}

/// Appends one name to a pushdown whitelist under construction.
fn put_name(v: &mut Vec<String>, name: &str)
    ensures
        cols_view(final(v)@) == cols_view(old(v)@).push(name@),
{
    let ghost before = cols_view(v@);
    v.push(owned(name));
    proof {
        assert(cols_view(v@) =~= before.push(name@));
    }
}

/// The registry entry of an object type.
pub fn schema_of(o: ObjectType) -> (s: ObjectSchema)
    ensures
        s.obj == o,
        s.wf(),
{
    let obj_key = match o {
        ObjectType::Balance => owned("available"),
        _ => owned("data"),
    };
    let mut fields: Vec<(String, FieldType)> = Vec::new();
    let mut pushdown: Vec<String> = Vec::new();
    match o {
        ObjectType::Balance => {
            put_field(&mut fields, "amount", FieldType::Int64);
            put_field(&mut fields, "currency", FieldType::Text);
        },
        ObjectType::BalanceTransactions => {
            put_field(&mut fields, "id", FieldType::Text);
            put_field(&mut fields, "amount", FieldType::Int64);
            put_field(&mut fields, "currency", FieldType::Text);
            put_field(&mut fields, "description", FieldType::Text);
            put_field(&mut fields, "fee", FieldType::Int64);
            put_field(&mut fields, "net", FieldType::Int64);
            put_field(&mut fields, "status", FieldType::Text);
            put_field(&mut fields, "type", FieldType::Text);
            put_field(&mut fields, "created", FieldType::Timestamp);
            put_name(&mut pushdown, "payout");
            put_name(&mut pushdown, "type");
        },
        ObjectType::Charges => {
            put_field(&mut fields, "id", FieldType::Text);
            put_field(&mut fields, "amount", FieldType::Int64);
            put_field(&mut fields, "currency", FieldType::Text);
            put_field(&mut fields, "customer", FieldType::Text);
            put_field(&mut fields, "description", FieldType::Text);
            put_field(&mut fields, "invoice", FieldType::Text);
            put_field(&mut fields, "payment_intent", FieldType::Text);
            put_field(&mut fields, "status", FieldType::Text);
            put_field(&mut fields, "created", FieldType::Timestamp);
            put_name(&mut pushdown, "customer");
        },
        ObjectType::Customers => {
            put_field(&mut fields, "id", FieldType::Text);
            put_field(&mut fields, "email", FieldType::Text);
            put_name(&mut pushdown, "email");
        },
        ObjectType::Invoices => {
            put_field(&mut fields, "id", FieldType::Text);
            put_field(&mut fields, "customer", FieldType::Text);
            put_field(&mut fields, "subscription", FieldType::Text);
            put_field(&mut fields, "status", FieldType::Text);
            put_field(&mut fields, "total", FieldType::Int64);
            put_field(&mut fields, "currency", FieldType::Text);
            put_field(&mut fields, "period_start", FieldType::Timestamp);
            put_field(&mut fields, "period_end", FieldType::Timestamp);
            put_name(&mut pushdown, "customer");
            put_name(&mut pushdown, "status");
            put_name(&mut pushdown, "subscription");
        },
        ObjectType::PaymentIntents => {
            put_field(&mut fields, "id", FieldType::Text);
            put_field(&mut fields, "customer", FieldType::Text);
            put_field(&mut fields, "amount", FieldType::Int64);
            put_field(&mut fields, "currency", FieldType::Text);
            put_field(&mut fields, "payment_method", FieldType::Text);
            put_field(&mut fields, "created", FieldType::Timestamp);
            put_name(&mut pushdown, "customer");
        },
        ObjectType::Subscriptions => {
            put_field(&mut fields, "id", FieldType::Text);
            put_field(&mut fields, "customer", FieldType::Text);
            put_field(&mut fields, "currency", FieldType::Text);
            put_field(&mut fields, "current_period_start", FieldType::Timestamp);
            put_field(&mut fields, "current_period_end", FieldType::Timestamp);
            put_name(&mut pushdown, "customer");
            put_name(&mut pushdown, "price");
            put_name(&mut pushdown, "status");
        },
    }
    proof {
        assert(fields_view(fields@) =~= spec_fields(o));
        assert(cols_view(pushdown@) =~= spec_pushdown_fields(o));
    }
    ObjectSchema { obj: o, obj_key, fields, pushdown }
}

/// Resolves an object type name to its schema record, failing with
/// `UnknownObject` on a name outside the registry. The registry itself is
/// static: for a given name the result is always the same record.
pub fn lookup(name: &str) -> (r: Result<ObjectSchema, FdwError>)
    ensures
        match spec_parse_object(name@) {
            Some(o) => r is Ok && r->Ok_0.obj == o && r->Ok_0.wf(),
            None => r == Err::<ObjectSchema, FdwError>(FdwError::UnknownObject),
        },
{
    match ObjectType::parse(name) {
        Some(o) => Ok(schema_of(o)),
        None => Err(FdwError::UnknownObject),
    }
}

} // verus!
