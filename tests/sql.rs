use wbtech_l0_demo::sql::{
    items_insert_statement, links_insert_statement, push_decimal, push_values_rows,
    ITEM_INSERT_HEAD, ITEM_INSERT_TAIL, LINK_INSERT_HEAD,
};

#[test]
fn decimal_forms() {
    for (n, text) in [(0u64, "0"), (7, "7"), (10, "10"), (1234567890, "1234567890")] {
        let mut s = String::from("x");
        push_decimal(&mut s, n);
        assert_eq!(s, format!("x{}", text));
    }
    let mut s = String::new();
    push_decimal(&mut s, u64::MAX);
    assert_eq!(s, u64::MAX.to_string());
}

#[test]
fn rows_are_numbered_row_by_row() {
    let mut s = String::new();
    push_values_rows(&mut s, 0, 3);
    assert_eq!(s, "");
    push_values_rows(&mut s, 1, 1);
    assert_eq!(s, "($1)");
    let mut s = String::new();
    push_values_rows(&mut s, 3, 2);
    assert_eq!(s, "($1, $2),($3, $4),($5, $6)");
}

#[test]
fn link_statement() {
    assert_eq!(links_insert_statement(0), None);
    assert_eq!(
        links_insert_statement(2).unwrap(),
        format!("{}($1, $2),($3, $4)", LINK_INSERT_HEAD)
    );
}

#[test]
fn item_statement() {
    assert_eq!(items_insert_statement(0), None);
    assert_eq!(
        items_insert_statement(1).unwrap(),
        format!(
            "{}($1, $2, $3, $4, $5, $6, $7, $8, $9, $10, $11){}",
            ITEM_INSERT_HEAD, ITEM_INSERT_TAIL
        )
    );
    let two = items_insert_statement(2).unwrap();
    assert!(two.contains("($12, $13, $14, $15, $16, $17, $18, $19, $20, $21, $22)"));
}
