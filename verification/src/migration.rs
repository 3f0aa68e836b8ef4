//! The database schema of the customer tables as data: the statements that
//! create it and the statements that drop it again. Rendering them as SQL is
//! the binary's job.

use vstd::prelude::*;

verus! {

/// The type of a column.
#[derive(Clone, Copy, Debug, PartialEq, Eq, Structural)]
pub enum ColumnType {
    Integer,
    Text,
    /// A variable-length string.
    Varchar,
    Boolean,
    Timestamp,
    TimestampWithTimeZone,
}

/// The default value of a column.
pub enum ColumnDefault {
    Text(String),
    Boolean(bool),
    CurrentTimestamp,
}

/// A column of a table.
pub struct ColumnSpec {
    pub name: String,
    pub column_type: ColumnType,
    pub not_null: bool,
    pub auto_increment: bool,
    pub primary_key: bool,
    pub unique: bool,
    pub default: Option<ColumnDefault>,
}

/// A foreign key of a table: `column` refers to `references_column` of
/// `references_table`.
pub struct ForeignKeySpec {
    pub name: String,
    pub column: String,
    pub references_table: String,
    pub references_column: String,
    pub on_delete_cascade: bool,
}

/// A table to create.
pub struct TableSpec {
    pub name: String,
    pub if_not_exists: bool,
    pub columns: Vec<ColumnSpec>,
    pub foreign_keys: Vec<ForeignKeySpec>,
}

/// An index over one column of a table.
pub struct IndexSpec {
    pub name: String,
    pub table: String,
    pub column: String,
}

/// A statement of a migration.
pub enum SchemaStatement {
    CreateTable(TableSpec),
    CreateIndex(IndexSpec),
    DropTable(String),
}

/// A named migration: the statements that apply it and those that revert it.
pub struct Migration {
    pub name: String,
    pub up: Vec<SchemaStatement>,
    pub down: Vec<SchemaStatement>,
}

/// The names of the tables that the statements create, in order.
pub open spec fn created_tables(s: Seq<SchemaStatement>) -> Seq<Seq<char>>
    decreases s.len(),
{
    if s.len() == 0 {
        Seq::empty()
    } else {
        let rest = created_tables(s.drop_last());
        match s.last() {
            SchemaStatement::CreateTable(t) => rest.push(t.name@),
            _ => rest,
        }
    }
}

/// The names of the tables that the statements drop, in order.
pub open spec fn dropped_tables(s: Seq<SchemaStatement>) -> Seq<Seq<char>>
    decreases s.len(),
{
    if s.len() == 0 {
        Seq::empty()
    } else {
        let rest = dropped_tables(s.drop_last());
        match s.last() {
            SchemaStatement::DropTable(name) => rest.push(name@),
            _ => rest,
        }
    }
}

/// Every foreign key and every index of the statement at position `i` names a
/// table that a statement before it creates.
pub open spec fn refers_backwards(s: Seq<SchemaStatement>, i: int) -> bool {
    match s[i] {
        SchemaStatement::CreateTable(t) => forall|f: int|
            0 <= f < t.foreign_keys@.len() ==> created_tables(s.take(i)).contains(
                (#[trigger] t.foreign_keys@[f]).references_table@,
            ),
        SchemaStatement::CreateIndex(x) => created_tables(s.take(i)).contains(x.table@),
        SchemaStatement::DropTable(_) => true,
    }
}

fn column(
    name: &str,
    column_type: ColumnType,
    not_null: bool,
    unique: bool,
    default: Option<ColumnDefault>,
) -> (res: ColumnSpec)
    ensures
        res.name@ == name@,
        res.column_type == column_type,
        res.not_null == not_null,
        !res.auto_increment,
        !res.primary_key,
        res.unique == unique,
        res.default == default,
{
    ColumnSpec {
        name: name.to_owned(),
        column_type,
        not_null,
        auto_increment: false,
        primary_key: false,
        unique,
        default,
    }
}

fn id_column() -> (res: ColumnSpec)
    ensures
        res.name@ == "id"@,
        res.column_type == ColumnType::Integer,
        res.not_null && res.auto_increment && res.primary_key,
        !res.unique,
        res.default is None,
{
    ColumnSpec {
        name: "id".to_owned(),
        column_type: ColumnType::Integer,
        not_null: true,
        auto_increment: true,
        primary_key: true,
        unique: false,
        default: None,
    }
}

fn foreign_key(name: &str, column: &str, on_delete_cascade: bool) -> (res: ForeignKeySpec)
    ensures
        res.name@ == name@,
        res.column@ == column@,
        res.references_table@ == "user"@,
        res.references_column@ == "id"@,
        res.on_delete_cascade == on_delete_cascade,
{
    ForeignKeySpec {
        name: name.to_owned(),
        column: column.to_owned(),
        references_table: "user".to_owned(),
        references_column: "id".to_owned(),
        on_delete_cascade,
    }
}

/// A column with the given name, type and flags; a key column is the
/// auto-incremented primary key.
pub open spec fn column_is(
    c: ColumnSpec,
    name: Seq<char>,
    ty: ColumnType,
    not_null: bool,
    unique: bool,
    key: bool,
) -> bool {
    &&& c.name@ == name
    &&& c.column_type == ty
    &&& c.not_null == not_null
    &&& c.unique == unique
    &&& c.auto_increment == key
    &&& c.primary_key == key
}

/// The columns of the `user` table.
pub open spec fn user_columns_ok(c: Seq<ColumnSpec>) -> bool {
    &&& c.len() == 8
    &&& column_is(c[0], "id"@, ColumnType::Integer, true, false, true)
    &&& c[0].default is None
    &&& column_is(c[1], "email"@, ColumnType::Varchar, true, true, false)
    &&& c[1].default is None
    &&& column_is(c[2], "password_hash"@, ColumnType::Text, true, false, false)
    &&& c[2].default matches Some(ColumnDefault::Text(v)) && v@ == ""@
    &&& column_is(c[3], "role"@, ColumnType::Text, true, false, false)
    &&& c[3].default matches Some(ColumnDefault::Text(v)) && v@ == "customer"@
    &&& column_is(c[4], "is_active"@, ColumnType::Boolean, true, false, false)
    &&& c[4].default == Some(ColumnDefault::Boolean(true))
    &&& column_is(c[5], "email_verified_at"@, ColumnType::TimestampWithTimeZone, false, false, false)
    &&& c[5].default is None
    &&& column_is(c[6], "created_at"@, ColumnType::Timestamp, true, false, false)
    &&& c[6].default == Some(ColumnDefault::CurrentTimestamp)
    &&& column_is(c[7], "updated_at"@, ColumnType::Timestamp, true, false, false)
    &&& c[7].default == Some(ColumnDefault::CurrentTimestamp)
}

/// The columns of the `refresh_token` table.
pub open spec fn refresh_columns_ok(c: Seq<ColumnSpec>) -> bool {
    &&& c.len() == 6
    &&& column_is(c[0], "id"@, ColumnType::Integer, true, false, true)
    &&& column_is(c[1], "user_id"@, ColumnType::Integer, true, false, false)
    &&& column_is(c[2], "token_hash"@, ColumnType::Varchar, true, true, false)
    &&& column_is(c[3], "expires_at"@, ColumnType::Timestamp, true, false, false)
    &&& column_is(c[4], "revoked_at"@, ColumnType::Timestamp, false, false, false)
    &&& forall|i: int| 0 <= i < 5 ==> (#[trigger] c[i]).default is None
    &&& column_is(c[5], "created_at"@, ColumnType::Timestamp, true, false, false)
    &&& c[5].default == Some(ColumnDefault::CurrentTimestamp)
}

/// The columns of the `email_verification_token` table.
pub open spec fn verification_columns_ok(c: Seq<ColumnSpec>) -> bool {
    &&& c.len() == 5
    &&& column_is(c[0], "id"@, ColumnType::Integer, true, false, true)
    &&& column_is(c[1], "user_id"@, ColumnType::Integer, true, false, false)
    &&& column_is(c[2], "token_hash"@, ColumnType::Varchar, true, true, false)
    &&& column_is(c[3], "expires_at"@, ColumnType::TimestampWithTimeZone, true, false, false)
    &&& forall|i: int| 0 <= i < 4 ==> (#[trigger] c[i]).default is None
    &&& column_is(c[4], "created_at"@, ColumnType::TimestampWithTimeZone, true, false, false)
    &&& c[4].default == Some(ColumnDefault::CurrentTimestamp)
}

/// A foreign key from `user_id` to the `user` table's `id`.
pub open spec fn user_key_is(f: ForeignKeySpec, name: Seq<char>, cascade: bool) -> bool {
    &&& f.name@ == name
    &&& f.column@ == "user_id"@
    &&& f.references_table@ == "user"@
    &&& f.references_column@ == "id"@
    &&& f.on_delete_cascade == cascade
}

/// The initial schema: the user table, then the refresh token and verification
/// token tables that refer to it, then the index on the verification tokens'
/// user.
pub open spec fn initial_schema_up(s: Seq<SchemaStatement>) -> bool {
    &&& s.len() == 4
    &&& s[0] matches SchemaStatement::CreateTable(t) && t.name@ == "user"@ && t.if_not_exists
        && t.foreign_keys@.len() == 0 && user_columns_ok(t.columns@)
    &&& s[1] matches SchemaStatement::CreateTable(t) && t.name@ == "refresh_token"@ && t.if_not_exists
        && t.foreign_keys@.len() == 1 && user_key_is(t.foreign_keys@[0], "fk_refresh_tokens_user_id"@, false)
        && refresh_columns_ok(t.columns@)
    &&& s[2] matches SchemaStatement::CreateTable(t) && t.name@ == "email_verification_token"@
        && t.if_not_exists && t.foreign_keys@.len() == 1 && user_key_is(
        t.foreign_keys@[0],
        "fk_email_verification_tokens_user_id"@,
        true,
    ) && verification_columns_ok(t.columns@)
    &&& s[3] matches SchemaStatement::CreateIndex(x) && x.name@ == "idx_email_verification_tokens_user_id"@
        && x.table@ == "email_verification_token"@ && x.column@ == "user_id"@
}

/// The shape of the statements that revert the initial schema.
pub open spec fn initial_schema_down(s: Seq<SchemaStatement>) -> bool {
    &&& s.len() == 3
    &&& s[0] matches SchemaStatement::DropTable(n) && n@ == "email_verification_token"@
    &&& s[1] matches SchemaStatement::DropTable(n) && n@ == "refresh_token"@
    &&& s[2] matches SchemaStatement::DropTable(n) && n@ == "user"@
}

/// The statements that create the initial schema.
pub fn up() -> (res: Vec<SchemaStatement>)
    ensures
        initial_schema_up(res@),
{
    let user_columns = vec![
        id_column(),
        column("email", ColumnType::Varchar, true, true, None),
        column("password_hash", ColumnType::Text, true, false, Some(ColumnDefault::Text("".to_owned()))),
        column("role", ColumnType::Text, true, false, Some(ColumnDefault::Text("customer".to_owned()))),
        column("is_active", ColumnType::Boolean, true, false, Some(ColumnDefault::Boolean(true))),
        column("email_verified_at", ColumnType::TimestampWithTimeZone, false, false, None),
        column("created_at", ColumnType::Timestamp, true, false, Some(ColumnDefault::CurrentTimestamp)),
        column("updated_at", ColumnType::Timestamp, true, false, Some(ColumnDefault::CurrentTimestamp)),
    ];
    let user = TableSpec {
        name: "user".to_owned(),
        if_not_exists: true,
        columns: user_columns,
        foreign_keys: Vec::new(),
    };
    let refresh_columns = vec![
        id_column(),
        column("user_id", ColumnType::Integer, true, false, None),
        column("token_hash", ColumnType::Varchar, true, true, None),
        column("expires_at", ColumnType::Timestamp, true, false, None),
        column("revoked_at", ColumnType::Timestamp, false, false, None),
        column("created_at", ColumnType::Timestamp, true, false, Some(ColumnDefault::CurrentTimestamp)),
    ];
    let refresh = TableSpec {
        name: "refresh_token".to_owned(),
        if_not_exists: true,
        columns: refresh_columns,
        foreign_keys: vec![foreign_key("fk_refresh_tokens_user_id", "user_id", false)],
    };
    let verification_columns = vec![
        id_column(),
        column("user_id", ColumnType::Integer, true, false, None),
        column("token_hash", ColumnType::Varchar, true, true, None),
        column("expires_at", ColumnType::TimestampWithTimeZone, true, false, None),
        column(
            "created_at",
            ColumnType::TimestampWithTimeZone,
            true,
            false,
            Some(ColumnDefault::CurrentTimestamp),
        ),
    ];
    let verification = TableSpec {
        name: "email_verification_token".to_owned(),
        if_not_exists: true,
        columns: verification_columns,
        foreign_keys: vec![foreign_key("fk_email_verification_tokens_user_id", "user_id", true)],
    };
    let index = IndexSpec {
        name: "idx_email_verification_tokens_user_id".to_owned(),
        table: "email_verification_token".to_owned(),
        column: "user_id".to_owned(),
    };
    vec![
        SchemaStatement::CreateTable(user),
        SchemaStatement::CreateTable(refresh),
        SchemaStatement::CreateTable(verification),
        SchemaStatement::CreateIndex(index),
    ]
}

/// The statements that revert the initial schema.
pub fn down() -> (res: Vec<SchemaStatement>)
    ensures
        initial_schema_down(res@),
{
    vec![
        SchemaStatement::DropTable("email_verification_token".to_owned()),
        SchemaStatement::DropTable("refresh_token".to_owned()),
        SchemaStatement::DropTable("user".to_owned()),
    ]
}

/// The migrations, in the order they apply.
pub fn migrations() -> (res: Vec<Migration>)
    ensures
        res@.len() == 1,
        res@[0].name@ == "20260509_000001_initial_schema"@,
        initial_schema_up(res@[0].up@),
        initial_schema_down(res@[0].down@),
{
    vec![Migration { name: "20260509_000001_initial_schema".to_owned(), up: up(), down: down() }]
}

/// Reverting the initial schema drops exactly the tables that applying it
/// creates, in the reverse order, and every foreign key and index of it refers
/// to a table created before.
pub proof fn lemma_initial_schema_reverts(u: Seq<SchemaStatement>, d: Seq<SchemaStatement>)
    requires
        initial_schema_up(u),
        initial_schema_down(d),
    ensures
        dropped_tables(d) == created_tables(u).reverse(),
        forall|i: int| 0 <= i < u.len() ==> refers_backwards(u, i),
{
    reveal_with_fuel(created_tables, 5);
    reveal_with_fuel(dropped_tables, 4);
    assert(u.take(0).len() == 0);
    assert(u.take(1).drop_last() =~= u.take(0));
    assert(u.take(2).drop_last() =~= u.take(1));
    assert(u.take(3).drop_last() =~= u.take(2));
    assert(u.drop_last() =~= u.take(3));
    assert(u.take(3).drop_last().drop_last() =~= u.take(1));
    assert(created_tables(u.take(1)) =~= seq!["user"@]);
    assert(created_tables(u.take(2)) =~= seq!["user"@, "refresh_token"@]);
    assert(created_tables(u.take(3)) =~= seq!["user"@, "refresh_token"@, "email_verification_token"@]);
    assert(created_tables(u) =~= seq!["user"@, "refresh_token"@, "email_verification_token"@]);
    assert(d.drop_last().drop_last().drop_last() =~= Seq::<SchemaStatement>::empty());
    assert(dropped_tables(d) =~= seq!["email_verification_token"@, "refresh_token"@, "user"@]);
    assert(created_tables(u).reverse() =~= seq!["email_verification_token"@, "refresh_token"@, "user"@]);
    assert(created_tables(u.take(1)).contains("user"@)) by {
        assert(created_tables(u.take(1))[0] == "user"@);
    }
    assert(created_tables(u.take(2)).contains("user"@)) by {
        assert(created_tables(u.take(2))[0] == "user"@);
    }
    assert(created_tables(u.take(3)).contains("email_verification_token"@)) by {
        assert(created_tables(u.take(3))[2] == "email_verification_token"@);
    }
}

} // verus!
