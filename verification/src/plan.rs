//! The five parameterized statements.
//!
//! Each operation executes exactly one statement whose text is a fixed
//! constant with placeholders; request values travel only as bound
//! parameters, never interpolated into the text. That split is what makes
//! metacharacters in a name or description inert.

use vstd::prelude::*;

verus! {

/// Abstract value of one bound parameter.
#[verifier::ext_equal]
pub ghost enum ParamView {
    Int(int),
    Text(Seq<char>),
}

/// One value bound to a statement placeholder. It is carried beside the
/// statement text and handed to the store as data, never spliced in.
pub enum Param {
    Int(i32),
    Text(String),
}

impl View for Param {
    type V = ParamView;

    open spec fn view(&self) -> ParamView {
        match self {
            Param::Int(i) => ParamView::Int(*i as int),
            Param::Text(s) => ParamView::Text(s@),
        }
    }
}

/// The abstract values of a parameter list, element for element.
pub open spec fn param_views(ps: Seq<Param>) -> Seq<ParamView> {
    ps.map_values(|p: Param| p@)
}

/// Abstract value of one statement: the operation and its bound values.
#[verifier::ext_equal]
pub ghost enum StatementView {
    Insert { name: Seq<char>, description: Seq<char> },
    SelectAll,
    SelectById { id: int },
    UpdateById { id: int, name: Seq<char>, description: Seq<char> },
    DeleteById { id: int },
}

/// One of the five statements, ready to execute: the variant fixes the
/// text, the fields are the values to bind.
pub enum Statement {
    Insert { name: String, description: String },
    SelectAll,
    SelectById { id: i32 },
    UpdateById { id: i32, name: String, description: String },
    DeleteById { id: i32 },
}

impl View for Statement {
    type V = StatementView;

    open spec fn view(&self) -> StatementView {
        match self {
            Statement::Insert { name, description } => StatementView::Insert {
                name: name@,
                description: description@,
            },
            Statement::SelectAll => StatementView::SelectAll,
            Statement::SelectById { id } => StatementView::SelectById { id: *id as int },
            Statement::UpdateById { id, name, description } => StatementView::UpdateById {
                id: *id as int,
                name: name@,
                description: description@,
            },
            Statement::DeleteById { id } => StatementView::DeleteById { id: *id as int },
        }
    }
}

/// Text of the insert statement.
pub open spec fn insert_sql() -> Seq<char> {
    "INSERT INTO items (name, description) VALUES ($1, $2) RETURNING id, name, description"@
}

/// Text of the select-all statement.
pub open spec fn select_all_sql() -> Seq<char> {
    "SELECT id, name, description FROM items"@
}

/// Text of the select-by-id statement.
pub open spec fn select_by_id_sql() -> Seq<char> {
    "SELECT id, name, description FROM items WHERE id = $1"@
}

/// Text of the update-by-id statement.
pub open spec fn update_by_id_sql() -> Seq<char> {
    "UPDATE items SET name = $1, description = $2 WHERE id = $3"@
}

/// Text of the delete-by-id statement.
pub open spec fn delete_by_id_sql() -> Seq<char> {
    "DELETE FROM items WHERE id = $1"@
}

/// The text a statement executes: a function of the variant alone. No
/// field of the statement occurs on any branch, so bound values cannot
/// reach the text.
pub open spec fn sql_of(s: StatementView) -> Seq<char> {
    match s {
        StatementView::Insert { .. } => insert_sql(),
        StatementView::SelectAll => select_all_sql(),
        StatementView::SelectById { .. } => select_by_id_sql(),
        StatementView::UpdateById { .. } => update_by_id_sql(),
        StatementView::DeleteById { .. } => delete_by_id_sql(),
    }
}

/// The values a statement binds, in placeholder order, verbatim.
pub open spec fn params_of(s: StatementView) -> Seq<ParamView> {
    match s {
        StatementView::Insert { name, description } => seq![
            ParamView::Text(name),
            ParamView::Text(description),
        ],
        StatementView::SelectAll => seq![],
        StatementView::SelectById { id } => seq![ParamView::Int(id)],
        StatementView::UpdateById { id, name, description } => seq![
            ParamView::Text(name),
            ParamView::Text(description),
            ParamView::Int(id),
        ],
        StatementView::DeleteById { id } => seq![ParamView::Int(id)],
    }
}

impl Statement {
    /// The statement text to hand to the store, with its placeholders.
    pub fn sql_text(&self) -> (r: &'static str)
        ensures
            r@ == sql_of(self@),
    {
        match self {
            Statement::Insert { .. } => "INSERT INTO items (name, description) VALUES ($1, $2) RETURNING id, name, description",
            Statement::SelectAll => "SELECT id, name, description FROM items",
            Statement::SelectById { .. } => "SELECT id, name, description FROM items WHERE id = $1",
            Statement::UpdateById { .. } => "UPDATE items SET name = $1, description = $2 WHERE id = $3",
            Statement::DeleteById { .. } => "DELETE FROM items WHERE id = $1",
        }
    }

    /// The values to bind, in placeholder order, copied verbatim.
    pub fn params(&self) -> (r: Vec<Param>)
        ensures
            param_views(r@) == params_of(self@),
    {
        let mut out: Vec<Param> = Vec::new();
        match self {
            Statement::Insert { name, description } => {
                out.push(Param::Text(name.clone()));
                out.push(Param::Text(description.clone()));
            },
            Statement::SelectAll => {},
            Statement::SelectById { id } => {
                out.push(Param::Int(*id));
            },
            Statement::UpdateById { id, name, description } => {
                out.push(Param::Text(name.clone()));
                out.push(Param::Text(description.clone()));
                out.push(Param::Int(*id));
            },
            Statement::DeleteById { id } => {
                out.push(Param::Int(*id));
            },
        }
        proof {
            assert(param_views(out@) =~= params_of(self@));
        }
        out
    }
}

} // verus!
