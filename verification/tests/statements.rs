use item_service::plan::{Param, Statement};

#[test]
fn statement_texts_are_the_five_constants() {
    let insert = Statement::Insert { name: "n".to_string(), description: "d".to_string() };
    assert_eq!(
        insert.sql_text(),
        "INSERT INTO items (name, description) VALUES ($1, $2) RETURNING id, name, description"
    );
    assert_eq!(Statement::SelectAll.sql_text(), "SELECT id, name, description FROM items");
    assert_eq!(
        Statement::SelectById { id: 3 }.sql_text(),
        "SELECT id, name, description FROM items WHERE id = $1"
    );
    let update = Statement::UpdateById { id: 3, name: "n".to_string(), description: "d".to_string() };
    assert_eq!(update.sql_text(), "UPDATE items SET name = $1, description = $2 WHERE id = $3");
    assert_eq!(Statement::DeleteById { id: 3 }.sql_text(), "DELETE FROM items WHERE id = $1");
}

#[test]
fn statement_text_does_not_depend_on_bound_values() {
    let hostile = "'; DROP TABLE items; --";
    let plain = Statement::Insert { name: "a".to_string(), description: "b".to_string() };
    let loaded = Statement::Insert { name: hostile.to_string(), description: hostile.to_string() };
    assert_eq!(plain.sql_text(), loaded.sql_text());
    let update_plain =
        Statement::UpdateById { id: 1, name: "a".to_string(), description: "b".to_string() };
    let update_loaded =
        Statement::UpdateById { id: 1, name: hostile.to_string(), description: hostile.to_string() };
    assert_eq!(update_plain.sql_text(), update_loaded.sql_text());
}

#[test]
fn parameters_bind_the_given_values_verbatim() {
    let hostile = "'; DROP TABLE items; --";
    let insert = Statement::Insert { name: hostile.to_string(), description: "d".to_string() };
    let params = insert.params();
    assert_eq!(params.len(), 2);
    match &params[0] {
        Param::Text(text) => assert_eq!(text, hostile),
        _ => panic!("first insert parameter must be the name"),
    }
    match &params[1] {
        Param::Text(text) => assert_eq!(text, "d"),
        _ => panic!("second insert parameter must be the description"),
    }

    let update = Statement::UpdateById { id: 9, name: "X".to_string(), description: "Y".to_string() };
    let params = update.params();
    assert_eq!(params.len(), 3);
    assert!(matches!(&params[0], Param::Text(t) if t == "X"));
    assert!(matches!(&params[1], Param::Text(t) if t == "Y"));
    assert!(matches!(&params[2], Param::Int(9)));

    assert_eq!(Statement::SelectAll.params().len(), 0);
    assert!(matches!(&Statement::SelectById { id: 4 }.params()[..], [Param::Int(4)]));
    assert!(matches!(&Statement::DeleteById { id: 5 }.params()[..], [Param::Int(5)]));
}
