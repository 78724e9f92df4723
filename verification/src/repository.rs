use vstd::prelude::*;
use vstd::map::*;
use vstd::arithmetic::div_mod::lemma_fundamental_div_mod_converse;
use crate::balance::{Balance, Balances};
use crate::id::Id;

verus! {

/// The store's hard ceiling on bound parameters per statement.
pub const MAX_PARAM_SIZE: u16 = 65535;

/// Why a batch write failed. Rows from statements already executed in the
/// same scope stay applied; the caller's transaction scope decides whether
/// they commit.
#[derive(Debug, Clone, Copy, PartialEq, Eq)]
pub enum WriteFault {
    /// The statement for this chunk would bind more parameters than the
    /// store's ceiling.
    ParamCeilingExceeded { chunk_index: usize },
    /// The schema catalog reports a per-row column count under which no row
    /// fits in a statement.
    InvalidColumnCount { columns: u64 },
}

/// The logical row key: the canonical strings of owner and token.
pub open spec fn balance_key(b: Balance) -> (Seq<char>, Seq<char>) {
    (b.owner.text(), b.token.text())
}

/// Last-write-wins upsert of a batch into a table, in input order: each row
/// overwrites the amount stored under its key, never accumulates.
pub open spec fn upsert_rows(
    m: Map<(Seq<char>, Seq<char>), Seq<char>>,
    rows: Seq<Balance>,
) -> Map<(Seq<char>, Seq<char>), Seq<char>>
    decreases rows.len(),
{
    if rows.len() == 0 {
        m
    } else {
        upsert_rows(m.insert(balance_key(rows[0]), rows[0].amount.0@), rows.skip(1))
    }
}

/// The amount a batch itself assigns to key `k`: that of the last row in the
/// batch with that key, if any.
pub open spec fn batch_value(rows: Seq<Balance>, k: (Seq<char>, Seq<char>)) -> Option<Seq<char>>
    decreases rows.len(),
{
    if rows.len() == 0 {
        None
    } else {
        let rest = batch_value(rows.skip(1), k);
        if rest is Some {
            rest
        } else if balance_key(rows[0]) == k {
            Some(rows[0].amount.0@)
        } else {
            None
        }
    }
}

/// Pointwise characterization of a batch upsert: at each key, the batch's own
/// last value wins, and keys the batch never touches keep their prior value.
pub proof fn lemma_upsert_rows_at(
    m: Map<(Seq<char>, Seq<char>), Seq<char>>,
    rows: Seq<Balance>,
    k: (Seq<char>, Seq<char>),
)
    ensures
        upsert_rows(m, rows).contains_key(k) == (m.contains_key(k) || batch_value(rows, k)
            is Some),
        batch_value(rows, k) matches Some(a) ==> upsert_rows(m, rows)[k] == a,
        (batch_value(rows, k) is None && m.contains_key(k)) ==> upsert_rows(m, rows)[k] == m[k],
    decreases rows.len(),
{
    if rows.len() > 0 {
        let m1 = m.insert(balance_key(rows[0]), rows[0].amount.0@);
        lemma_upsert_rows_at(m1, rows.skip(1), k);
    }
}

/// A batch assigns a value to `k` exactly when one of its rows has that key.
pub proof fn lemma_batch_value_exists(rows: Seq<Balance>, k: (Seq<char>, Seq<char>))
    ensures
        (batch_value(rows, k) is Some) == (exists|j: int|
            0 <= j < rows.len() && balance_key(rows[j]) == k),
    decreases rows.len(),
{
    if rows.len() > 0 {
        lemma_batch_value_exists(rows.skip(1), k);
        if batch_value(rows, k) is Some {
            if batch_value(rows.skip(1), k) is Some {
                let j = choose|j: int|
                    0 <= j < rows.skip(1).len() && balance_key(rows.skip(1)[j]) == k;
                assert(rows.skip(1)[j] == rows[j + 1]);
            }
        } else {
            assert forall|j: int| 0 <= j < rows.len() implies balance_key(rows[j]) != k by {
                if j > 0 {
                    assert(rows.skip(1)[j - 1] == rows[j]);
                }
            }
        }
    }
}

/// When row `i` holds key `k` and no later row does, the batch assigns row
/// `i`'s amount to `k`.
pub proof fn lemma_batch_value_hit(rows: Seq<Balance>, k: (Seq<char>, Seq<char>), i: int)
    requires
        0 <= i < rows.len(),
        balance_key(rows[i]) == k,
        forall|j: int| i < j < rows.len() ==> balance_key(rows[j]) != k,
    ensures
        batch_value(rows, k) == Some(rows[i].amount.0@),
    decreases rows.len(),
{
    if i == 0 {
        assert forall|j: int| 0 <= j < rows.skip(1).len() implies balance_key(
            rows.skip(1)[j],
        ) != k by {
            assert(rows.skip(1)[j] == rows[j + 1]);
        }
        lemma_batch_value_exists(rows.skip(1), k);
    } else {
        assert forall|j: int| i - 1 < j < rows.skip(1).len() implies balance_key(
            rows.skip(1)[j],
        ) != k by {
            assert(rows.skip(1)[j] == rows[j + 1]);
        }
        assert(rows.skip(1)[i - 1] == rows[i]);
        lemma_batch_value_hit(rows.skip(1), k, i - 1);
    }
}

/// Upserting a concatenation equals upserting the parts in order.
pub proof fn lemma_upsert_rows_app(
    m: Map<(Seq<char>, Seq<char>), Seq<char>>,
    a: Seq<Balance>,
    b: Seq<Balance>,
)
    ensures
        upsert_rows(m, a + b) == upsert_rows(upsert_rows(m, a), b),
    decreases a.len(),
{
    if a.len() == 0 {
        assert(a + b =~= b);
    } else {
        assert((a + b)[0] == a[0]);
        assert((a + b).skip(1) =~= a.skip(1) + b);
        lemma_upsert_rows_app(m.insert(balance_key(a[0]), a[0].amount.0@), a.skip(1), b);
    }
}

/// Law: re-running the same batch of balance rows leaves the table exactly as
/// after the first run.
pub proof fn lemma_upsert_idempotent(m: Map<(Seq<char>, Seq<char>), Seq<char>>, rows: Seq<Balance>)
    ensures
        upsert_rows(upsert_rows(m, rows), rows) == upsert_rows(m, rows),
{
    let m1 = upsert_rows(m, rows);
    let m2 = upsert_rows(m1, rows);
    assert_maps_equal!(m2, m1, k => {
        lemma_upsert_rows_at(m, rows, k);
        lemma_upsert_rows_at(m1, rows, k);
    });
}

/// Law: writing the same `(owner, token)` key in two successive calls leaves
/// exactly one row under that key, holding the amount of the later call, and
/// touches no other key.
pub proof fn lemma_last_write_wins(
    m: Map<(Seq<char>, Seq<char>), Seq<char>>,
    b1: Balance,
    b2: Balance,
)
    requires
        balance_key(b1) == balance_key(b2),
    ensures
        ({
            let m2 = upsert_rows(upsert_rows(m, seq![b1]), seq![b2]);
            &&& m2.contains_key(balance_key(b2))
            &&& m2[balance_key(b2)] == b2.amount.0@
            &&& forall|k: (Seq<char>, Seq<char>)|
                k != balance_key(b2) ==> m2.contains_key(k) == m.contains_key(k) && (
                m.contains_key(k) ==> m2[k] == m[k])
        }),
{
    reveal_with_fuel(upsert_rows, 3);
    assert(seq![b1].skip(1) =~= Seq::<Balance>::empty());
    assert(seq![b2].skip(1) =~= Seq::<Balance>::empty());
    let m1 = upsert_rows(m, seq![b1]);
    assert(m1 == m.insert(balance_key(b1), b1.amount.0@));
    let m2 = upsert_rows(m1, seq![b2]);
    assert(m2 == m1.insert(balance_key(b2), b2.amount.0@));
}

/// The balances table as reachable through one caller-owned
/// persistence-transaction scope: the rows written so far, the per-row column
/// count the schema catalog reports, and how many statements were issued.
pub struct BalanceStore {
    log: Vec<Balance>,
    columns: u64,
    statements: u64,
}

impl BalanceStore {
    /// The logical table: one amount per `(owner, token)` key, the last
    /// write winning.
    pub closed spec fn table(&self) -> Map<(Seq<char>, Seq<char>), Seq<char>> {
        upsert_rows(Map::empty(), self.log@)
    }

    /// The per-row column count the schema catalog reports.
    pub closed spec fn columns_spec(&self) -> u64 {
        self.columns
    }

    /// How many upsert statements this scope has issued.
    pub closed spec fn statements_spec(&self) -> u64 {
        self.statements
    }

    /// A fresh scope over an empty table whose schema catalog reports
    /// `columns` columns per balance row.
    pub fn new(columns: u64) -> (s: BalanceStore)
        ensures
            s.table() == Map::<(Seq<char>, Seq<char>), Seq<char>>::empty(),
            s.columns_spec() == columns,
            s.statements_spec() == 0,
    {
        BalanceStore { log: Vec::new(), columns, statements: 0 }
    }

    /// Query the schema catalog for the balances table's live column count.
    pub fn columns_of_balances_table(&self) -> (c: u64)
        ensures
            c == self.columns_spec(),
    {
        self.columns
    }

    /// How many upsert statements this scope has issued.
    pub fn statements_issued(&self) -> (n: u64)
        ensures
            n == self.statements_spec(),
    {
        self.statements
    }

    /// The stored amount for `(owner, token)`, if that row exists.
    pub fn get_amount(&self, owner: &Id, token: &Id) -> (r: Option<String>)
        ensures
            match r {
                Some(a) => self.table().contains_key((owner.text(), token.text()))
                    && self.table()[(owner.text(), token.text())] == a@,
                None => !self.table().contains_key((owner.text(), token.text())),
            },
    {
        let ghost k = (owner.text(), token.text());
        let mut i = self.log.len();
        while i > 0
            invariant
                i <= self.log@.len(),
                k == (owner.text(), token.text()),
                forall|j: int| i <= j < self.log@.len() ==> balance_key(self.log@[j]) != k,
            decreases i,
        {
            i = i - 1;
            let b = &self.log[i];
            let owner_match = b.owner.text_eq(owner);
            let token_match = b.token.text_eq(token);
            if owner_match && token_match {
                proof {
                    assert(balance_key(self.log@[i as int]) == k);
                    lemma_batch_value_hit(self.log@, k, i as int);
                    lemma_upsert_rows_at(Map::empty(), self.log@, k);
                }
                return Some(b.amount.0.clone());
            }
        }
        proof {
            lemma_batch_value_exists(self.log@, k);
            lemma_upsert_rows_at(Map::empty(), self.log@, k);
        }
        None
    }

    /// How many rows the table holds.
    pub fn row_count(&self) -> (n: usize)
        ensures
            n == self.table().dom().len(),
    {
        proof {
            lemma_table_dom_finite(self.log@);
        }
        let mut count: usize = 0;
        let mut i: usize = 0;
        while i < self.log.len()
            invariant
                i <= self.log@.len(),
                count <= i,
                upsert_rows(Map::empty(), self.log@.take(i as int)).dom().finite(),
                count == upsert_rows(Map::empty(), self.log@.take(i as int)).dom().len(),
            decreases self.log@.len() - i,
        {
            let ghost prefix = self.log@.take(i as int);
            let ghost ki = balance_key(self.log@[i as int]);
            let mut seen = false;
            let mut j: usize = 0;
            while j < i
                invariant
                    j <= i < self.log@.len(),
                    seen == (exists|t: int|
                        0 <= t < j && balance_key(self.log@[t]) == balance_key(
                            self.log@[i as int],
                        )),
                decreases i - j,
            {
                if key_eq(&self.log[j], &self.log[i]) {
                    seen = true;
                }
                j = j + 1;
            }
            proof {
                assert forall|t: int| 0 <= t < prefix.len() implies prefix[t] == self.log@[t] by {}
                if exists|t: int| 0 <= t < i && balance_key(self.log@[t]) == ki {
                    let t = choose|t: int| 0 <= t < i && balance_key(self.log@[t]) == ki;
                    assert(balance_key(prefix[t]) == ki);
                }
                if exists|t: int| 0 <= t < prefix.len() && balance_key(prefix[t]) == ki {
                    let t = choose|t: int|
                        0 <= t < prefix.len() && balance_key(prefix[t]) == ki;
                    assert(balance_key(self.log@[t]) == ki);
                }
                lemma_batch_value_exists(prefix, ki);
                lemma_upsert_rows_at(Map::empty(), prefix, ki);
                assert(self.log@.take(i + 1int) =~= prefix + seq![self.log@[i as int]]);
                lemma_upsert_rows_app(Map::empty(), prefix, seq![self.log@[i as int]]);
                reveal_with_fuel(upsert_rows, 3);
                assert(seq![self.log@[i as int]].skip(1) =~= Seq::<Balance>::empty());
                let m_i = upsert_rows(Map::empty(), prefix);
                assert(upsert_rows(Map::empty(), self.log@.take(i + 1int)) == m_i.insert(
                    ki,
                    self.log@[i as int].amount.0@,
                ));
                assert(m_i.insert(ki, self.log@[i as int].amount.0@).dom() =~= m_i.dom().insert(
                    ki,
                ));
                assert(m_i.dom().contains(ki) == m_i.contains_key(ki));
            }
            if !seen {
                count = count + 1;
            }
            i = i + 1;
        }
        proof {
            assert(self.log@.take(self.log@.len() as int) =~= self.log@);
        }
        count
    }
}

/// The two rows share their `(owner, token)` key.
fn key_eq(a: &Balance, b: &Balance) -> (r: bool)
    ensures
        r == (balance_key(*a) == balance_key(*b)),
{
    let owner_match = a.owner.text_eq(&b.owner);
    let token_match = a.token.text_eq(&b.token);
    owner_match && token_match
}

/// The table of any write log has a finite key set.
proof fn lemma_table_dom_finite(rows: Seq<Balance>)
    ensures
        upsert_rows(Map::empty(), rows).dom().finite(),
{
    lemma_upsert_dom_finite(Map::empty(), rows);
}

/// Upserting rows into a finitely-keyed table keeps the key set finite.
proof fn lemma_upsert_dom_finite(m: Map<(Seq<char>, Seq<char>), Seq<char>>, rows: Seq<Balance>)
    requires
        m.dom().finite(),
    ensures
        upsert_rows(m, rows).dom().finite(),
    decreases rows.len(),
{
    if rows.len() > 0 {
        lemma_upsert_dom_finite(m.insert(balance_key(rows[0]), rows[0].amount.0@), rows.skip(1));
    }
}

/// Move every row of `src` onto the end of `dst`, in order.
fn move_all(dst: &mut Vec<Balance>, src: Balances)
    ensures
        final(dst)@ == old(dst)@ + src@,
{
    let ghost orig = src@;
    let mut src = src;
    let mut temp: Vec<Balance> = Vec::new();
    while src.len() > 0
        invariant
            src@ == orig.take(src@.len() as int),
            temp@.len() + src@.len() == orig.len(),
            forall|t: int| 0 <= t < temp@.len() ==> temp@[t] == orig[orig.len() - 1 - t],
        decreases src@.len(),
    {
        let ghost before = src@;
        let b = src.pop().unwrap();
        temp.push(b);
        proof {
            assert(src@ =~= orig.take(src@.len() as int));
        }
    }
    while temp.len() > 0
        invariant
            temp@.len() <= orig.len(),
            forall|t: int| 0 <= t < temp@.len() ==> temp@[t] == orig[orig.len() - 1 - t],
            dst@ == old(dst)@ + orig.take((orig.len() - temp@.len()) as int),
        decreases temp@.len(),
    {
        let ghost done = orig.len() - temp@.len();
        let b = temp.pop().unwrap();
        dst.push(b);
        proof {
            assert(dst@ =~= old(dst)@ + orig.take(done + 1));
        }
    }
    proof {
        assert(orig.take(orig.len() as int) =~= orig);
    }
}

/// Issue one bulk upsert statement for `balances` against the scope's table,
/// keyed on `(owner, token)`: on key conflict the stored amount is replaced
/// by the incoming one, later rows in the batch winning over earlier ones.
/// The statement is refused when its `rows x columns` bound parameters would
/// exceed the store's ceiling, or when the catalog reports no columns; the
/// table is then left unchanged.
pub fn insert_balance(transaction_conn: &mut BalanceStore, balances: Balances) -> (r: Result<
    (),
    WriteFault,
>)
    requires
        old(transaction_conn).statements_spec() < u64::MAX,
    ensures
        final(transaction_conn).columns_spec() == old(transaction_conn).columns_spec(),
        ({
            let cols = old(transaction_conn).columns_spec();
            if 1 <= cols && balances@.len() <= MAX_PARAM_SIZE as int / cols as int {
                &&& r == Ok::<(), WriteFault>(())
                &&& final(transaction_conn).table() == upsert_rows(
                    old(transaction_conn).table(),
                    balances@,
                )
                &&& final(transaction_conn).statements_spec() == old(
                    transaction_conn,
                ).statements_spec() + 1
            } else {
                &&& (if cols == 0 {
                    r == Err::<(), WriteFault>(WriteFault::InvalidColumnCount { columns: 0 })
                } else {
                    r == Err::<(), WriteFault>(
                        WriteFault::ParamCeilingExceeded { chunk_index: 0 },
                    )
                })
                &&& *final(transaction_conn) == *old(transaction_conn)
            }
        }),
{
    let cols = transaction_conn.columns;
    if cols == 0 {
        return Err(WriteFault::InvalidColumnCount { columns: 0 });
    }
    let cap = (MAX_PARAM_SIZE as u64) / cols;
    if (balances.len() as u64) > cap {
        return Err(WriteFault::ParamCeilingExceeded { chunk_index: 0 });
    }
    let ghost old_log = transaction_conn.log@;
    move_all(&mut transaction_conn.log, balances);
    proof {
        lemma_upsert_rows_app(Map::empty(), old_log, balances@);
    }
    transaction_conn.statements = transaction_conn.statements + 1;
    Ok(())
}

/// How many balance rows fit in one statement under the store's parameter
/// ceiling, given the catalog's per-row column count; `None` when no row
/// fits (no columns, or more columns than the ceiling itself).
pub fn chunk_capacity(columns: u64) -> (r: Option<usize>)
    ensures
        match r {
            Some(c) => {
                &&& 1 <= columns <= MAX_PARAM_SIZE
                &&& c == MAX_PARAM_SIZE as int / columns as int
                &&& 1 <= c <= MAX_PARAM_SIZE
            },
            None => columns == 0 || columns > MAX_PARAM_SIZE,
        },
{
    if columns == 0 || columns > MAX_PARAM_SIZE as u64 {
        return None;
    }
    let cap_u64 = (MAX_PARAM_SIZE as u64) / columns;
    proof {
        assert(1 <= cap_u64 <= 65535) by (nonlinear_arith)
            requires
                1 <= columns,
                columns <= 65535,
                cap_u64 == 65535int / (columns as int),
        ;
    }
    Some(cap_u64 as usize)
}

/// Upsert an arbitrarily large batch by splitting it, in input order, into
/// chunks of at most `floor(MAX_PARAM_SIZE / columns)` rows, issuing one
/// statement per chunk — `ceil(rows / chunk_capacity)` statements in all —
/// sequentially against the same scope. The column count is queried from the
/// store's schema catalog at call time.
pub fn insert_balance_in_chunks(transaction_conn: &mut BalanceStore, balances: Balances) -> (r:
    Result<(), WriteFault>)
    requires
        old(transaction_conn).statements_spec() + balances@.len() < u64::MAX,
    ensures
        final(transaction_conn).columns_spec() == old(transaction_conn).columns_spec(),
        ({
            let cols = old(transaction_conn).columns_spec();
            let cap = MAX_PARAM_SIZE as int / cols as int;
            if 1 <= cols && cols <= MAX_PARAM_SIZE {
                &&& r == Ok::<(), WriteFault>(())
                &&& final(transaction_conn).table() == upsert_rows(
                    old(transaction_conn).table(),
                    balances@,
                )
                &&& final(transaction_conn).statements_spec() == old(
                    transaction_conn,
                ).statements_spec() + (balances@.len() + cap - 1) / cap
            } else {
                &&& r == Err::<(), WriteFault>(
                    WriteFault::InvalidColumnCount { columns: cols },
                )
                &&& *final(transaction_conn) == *old(transaction_conn)
            }
        }),
{
    let cols = transaction_conn.columns_of_balances_table();
    let cap = match chunk_capacity(cols) {
        Some(cap) => cap,
        None => {
            return Err(WriteFault::InvalidColumnCount { columns: cols });
        },
    };
    let ghost orig = balances@;
    let ghost n = orig.len() as int;
    let ghost old_table = old(transaction_conn).table();
    let ghost old_statements = old(transaction_conn).statements_spec() as int;
    let mut remaining = balances;
    let ghost mut chunks: int = 0;
    let ghost mut bound: int = 0;  // always chunks * cap
    while remaining.len() > 0
        invariant
            n == orig.len(),
            1 <= cap <= MAX_PARAM_SIZE,
            1 <= transaction_conn.columns_spec() <= MAX_PARAM_SIZE,
            cap == MAX_PARAM_SIZE as int / transaction_conn.columns_spec() as int,
            transaction_conn.columns_spec() == old(transaction_conn).columns_spec(),
            old_table == old(transaction_conn).table(),
            old_statements == old(transaction_conn).statements_spec() as int,
            remaining@ == orig.skip(n - remaining@.len()),
            remaining@.len() <= n,
            transaction_conn.table() == upsert_rows(old_table, orig.take(n - remaining@.len())),
            transaction_conn.statements_spec() == old_statements + chunks,
            chunks <= n - remaining@.len(),
            old_statements + n < u64::MAX,
            bound == chunks * cap,
            n - remaining@.len() <= bound < n - remaining@.len() + cap,
            remaining@.len() > 0 ==> bound == n - remaining@.len(),
        decreases remaining@.len(),
    {
        let ghost done = n - remaining@.len();
        let chunk_len = if remaining.len() > cap {
            cap
        } else {
            remaining.len()
        };
        let rest = remaining.split_off(chunk_len);
        proof {
            assert(remaining@ =~= orig.subrange(done, done + chunk_len as int));
            assert(rest@ =~= orig.skip(done + chunk_len as int));
            assert(orig.take(done + chunk_len as int) =~= orig.take(done) + remaining@);
            lemma_upsert_rows_app(old_table, orig.take(done), remaining@);
        }
        let res = insert_balance(transaction_conn, remaining);
        match res {
            Ok(()) => {},
            Err(e) => {
                return Err(e);
            },
        }
        remaining = rest;
        proof {
            assert((chunks + 1) * cap == chunks * cap + cap) by (nonlinear_arith);
            chunks = chunks + 1;
            bound = bound + cap;
        }
    }
    proof {
        assert(remaining@.len() == 0);
        assert(orig.take(n) =~= orig);
        // chunks == ceil(n / cap), from n <= chunks * cap < n + cap.
        lemma_fundamental_div_mod_converse(n + cap - 1, cap as int, chunks, n + cap - 1 - bound);
    }
    Ok(())
}

} // verus!
