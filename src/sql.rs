//! Multi-row insert statements: one statement for N rows of K columns, with N·K
//! numbered placeholders laid out row by row, so that parameter `r * K + c + 1`
//! is column `c` of input row `r`.
use vstd::prelude::*;

verus! {

/// Columns written for each item row.
pub const ITEM_COLUMNS: usize = 11;

/// Columns written for each order-to-item link row.
pub const LINK_COLUMNS: usize = 2;

pub const ITEM_INSERT_HEAD: &'static str = "WITH item_ids AS (INSERT INTO items (chrt_id, track_number, price, rid, name, sale, size, total_price, nm_id, brand, status) VALUES ";

pub const ITEM_INSERT_TAIL: &'static str = " RETURNING id) SELECT id FROM item_ids";

pub const LINK_INSERT_HEAD: &'static str = "INSERT INTO items_to_order (order_id, item_id) VALUES ";

pub open spec fn digit_char(d: nat) -> char {
    if d == 0 {
        '0'
    } else if d == 1 {
        '1'
    } else if d == 2 {
        '2'
    } else if d == 3 {
        '3'
    } else if d == 4 {
        '4'
    } else if d == 5 {
        '5'
    } else if d == 6 {
        '6'
    } else if d == 7 {
        '7'
    } else if d == 8 {
        '8'
    } else {
        '9'
    }
}

/// Decimal form of a natural number, without leading zeros.
pub open spec fn decimal(n: nat) -> Seq<char>
    decreases n,
{
    if n < 10 {
        seq![digit_char(n)]
    } else {
        decimal(n / 10) + seq![digit_char(n % 10)]
    }
}

/// The placeholder `$k`.
pub open spec fn placeholder(k: nat) -> Seq<char> {
    seq!['$'] + decimal(k)
}

/// `$first, $first+1, ..., $first+count-1`.
pub open spec fn placeholder_list(first: nat, count: nat) -> Seq<char>
    decreases count,
{
    if count == 0 {
        Seq::empty()
    } else if count == 1 {
        placeholder(first)
    } else {
        placeholder_list(first, (count - 1) as nat) + seq![',', ' '] + placeholder(
            (first + count - 1) as nat,
        )
    }
}

/// One parenthesised row of `cols` placeholders starting at `$first`.
pub open spec fn placeholder_row(first: nat, cols: nat) -> Seq<char> {
    seq!['('] + placeholder_list(first, cols) + seq![')']
}

/// `rows` rows of `cols` placeholders, separated by commas; row `r` starts at
/// placeholder `r * cols + 1`.
pub open spec fn values_rows(rows: nat, cols: nat) -> Seq<char>
    decreases rows,
{
    if rows == 0 {
        Seq::empty()
    } else if rows == 1 {
        placeholder_row(1, cols)
    } else {
        values_rows((rows - 1) as nat, cols) + seq![','] + placeholder_row(
            ((rows - 1) * cols + 1) as nat,
            cols,
        )
    }
}

fn push_digit(s: &mut String, d: u64)
    requires
        d < 10,
    ensures
        final(s)@ == old(s)@ + seq![digit_char(d as nat)],
{
    let lit = if d == 0 {
        "0"
    } else if d == 1 {
        "1"
    } else if d == 2 {
        "2"
    } else if d == 3 {
        "3"
    } else if d == 4 {
        "4"
    } else if d == 5 {
        "5"
    } else if d == 6 {
        "6"
    } else if d == 7 {
        "7"
    } else if d == 8 {
        "8"
    } else {
        "9"
    };
    proof {
        reveal_strlit("0");
        reveal_strlit("1");
        reveal_strlit("2");
        reveal_strlit("3");
        reveal_strlit("4");
        reveal_strlit("5");
        reveal_strlit("6");
        reveal_strlit("7");
        reveal_strlit("8");
        reveal_strlit("9");
        assert(lit@ =~= seq![digit_char(d as nat)]);
    }
    s.append(lit);
}

/// Appends the decimal form of `n`.
pub fn push_decimal(s: &mut String, n: u64)
    ensures
        final(s)@ == old(s)@ + decimal(n as nat),
    decreases n,
{
    if n < 10 {
        push_digit(s, n);
    } else {
        push_decimal(s, n / 10);
        push_digit(s, n % 10);
        proof {
            assert(final(s)@ =~= old(s)@ + decimal(n as nat));
        }
    }
}

fn push_placeholder(s: &mut String, k: u64)
    ensures
        final(s)@ == old(s)@ + placeholder(k as nat),
{
    proof {
        reveal_strlit("$");
        assert("$"@ =~= seq!['$']);
    }
    s.append("$");
    push_decimal(s, k);
    proof {
        assert(final(s)@ =~= old(s)@ + placeholder(k as nat));
    }
}

fn push_row(s: &mut String, first: u64, cols: u64)
    requires
        cols >= 1,
        first + cols <= u64::MAX,
    ensures
        final(s)@ == old(s)@ + placeholder_row(first as nat, cols as nat),
{
    proof {
        reveal_strlit("(");
        reveal_strlit(")");
        reveal_strlit(", ");
        assert("("@ =~= seq!['(']);
        assert(")"@ =~= seq![')']);
        assert(", "@ =~= seq![',', ' ']);
    }
    s.append("(");
    let ghost start = s@;
    push_placeholder(s, first);
    let mut c: u64 = 1;
    while c < cols
        invariant
            1 <= c <= cols,
            first + cols <= u64::MAX,
            s@ == start + placeholder_list(first as nat, c as nat),
            ", "@ == seq![',', ' '],
        decreases cols - c,
    {
        s.append(", ");
        push_placeholder(s, first + c);
        proof {
            assert(s@ =~= start + placeholder_list(first as nat, (c + 1) as nat));
        }
        c = c + 1;
    }
    s.append(")");
    proof {
        assert(s@ =~= old(s)@ + placeholder_row(first as nat, cols as nat));
    }
}

/// Appends `rows` rows of `cols` placeholders, numbered row by row from `$1`.
pub fn push_values_rows(s: &mut String, rows: u64, cols: u64)
    requires
        cols >= 1,
        rows * cols < u64::MAX,
    ensures
        final(s)@ == old(s)@ + values_rows(rows as nat, cols as nat),
{
    let ghost start = old(s)@;
    if rows == 0 {
        proof {
            assert(s@ =~= start + values_rows(0, cols as nat));
        }
        return;
    }
    proof {
        reveal_strlit(",");
        assert(","@ =~= seq![',']);
        assert(cols + 1 <= rows * cols + 1) by (nonlinear_arith)
            requires
                rows >= 1,
        ;
    }
    push_row(s, 1, cols);
    proof {
        assert(s@ =~= start + values_rows(1, cols as nat));
    }
    let mut r: u64 = 1;
    while r < rows
        invariant
            1 <= r <= rows,
            cols >= 1,
            rows * cols < u64::MAX,
            s@ == start + values_rows(r as nat, cols as nat),
            ","@ == seq![','],
        decreases rows - r,
    {
        proof {
            assert(r * cols + cols <= rows * cols) by (nonlinear_arith)
                requires
                    r < rows,
            ;
        }
        let first = r * cols + 1;
        s.append(",");
        push_row(s, first, cols);
        proof {
            assert(s@ =~= start + values_rows((r + 1) as nat, cols as nat));
        }
        r = r + 1;
    }
}

/// The statement that inserts `n` items in one round trip and returns their
/// identifiers; `None` when there is nothing to insert.
pub fn items_insert_statement(n: usize) -> (r: Option<String>)
    requires
        n * ITEM_COLUMNS < u64::MAX,
    ensures
        n == 0 <==> r is None,
        r is Some ==> r->0@ == ITEM_INSERT_HEAD@ + values_rows(n as nat, ITEM_COLUMNS as nat)
            + ITEM_INSERT_TAIL@,
{
    if n == 0 {
        return None;
    }
    let mut s = String::from_str(ITEM_INSERT_HEAD);
    push_values_rows(&mut s, n as u64, ITEM_COLUMNS as u64);
    s.append(ITEM_INSERT_TAIL);
    Some(s)
}

/// The statement that links an order to `n` items in one round trip; `None`
/// when there is nothing to link.
pub fn links_insert_statement(n: usize) -> (r: Option<String>)
    requires
        n * LINK_COLUMNS < u64::MAX,
    ensures
        n == 0 <==> r is None,
        r is Some ==> r->0@ == LINK_INSERT_HEAD@ + values_rows(n as nat, LINK_COLUMNS as nat),
{
    if n == 0 {
        return None;
    }
    let mut s = String::from_str(LINK_INSERT_HEAD);
    push_values_rows(&mut s, n as u64, LINK_COLUMNS as u64);
    Some(s)
}

} // verus!
