//! The schema bootstrapper.
//!
//! Priming drops and recreates the target database, then applies the
//! variant's DDL text statement by statement.  The text is an opaque asset;
//! what is verified here is the statement splitter — comment and blank lines
//! are skipped, continuation lines are joined with single spaces, and a
//! statement ends with a line whose last byte is `;` — and, over a small
//! model of the database server, that the whole plan resets the target
//! database to exactly the split statements, so that priming twice leaves
//! the same schema state as priming once.

use vstd::prelude::*;
use crate::store::clone_bytes;

verus! {

/// One logical line folded into the splitter state: comment (`--`) and blank
/// lines are skipped; anything else joins the pending statement, separated
/// by one space; a pending statement ending in `;` is emitted.
pub open spec fn fold_line(acc: Seq<u8>, out: Seq<Seq<u8>>, line: Seq<u8>) -> (Seq<u8>, Seq<
    Seq<u8>,
>) {
    if line.len() == 0 || (line.len() >= 2 && line[0] == 45 && line[1] == 45) {
        (acc, out)
    } else {
        let acc2 = if acc.len() > 0 {
            acc + seq![32u8] + line
        } else {
            line
        };
        if acc2.last() == 59 {
            (Seq::empty(), out.push(acc2))
        } else {
            (acc2, out)
        }
    }
}

/// A line as a newline terminates it: a carriage return directly before the
/// newline belongs to the terminator, not to the line.
pub open spec fn strip_cr(line: Seq<u8>) -> Seq<u8> {
    if line.len() > 0 && line.last() == 13 {
        line.drop_last()
    } else {
        line
    }
}

/// The splitter as a fold over the schema bytes: `line` is the current line,
/// `acc` the pending statement, `out` the statements emitted so far.  Lines
/// end at `\n` or `\r\n`; a pending statement without its terminating `;` at
/// the end of the text is dropped.
pub open spec fn fold_bytes(
    s: Seq<u8>,
    i: int,
    line: Seq<u8>,
    acc: Seq<u8>,
    out: Seq<Seq<u8>>,
) -> Seq<Seq<u8>>
    decreases s.len() - i when 0 <= i <= s.len()
{
    if i >= s.len() {
        fold_line(acc, out, line).1
    } else if s[i] == 10 {
        let step = fold_line(acc, out, strip_cr(line));
        fold_bytes(s, i + 1, Seq::empty(), step.0, step.1)
    } else {
        fold_bytes(s, i + 1, line.push(s[i]), acc, out)
    }
}

/// The statements of a schema text.
pub open spec fn spec_schema_statements(s: Seq<u8>) -> Seq<Seq<u8>> {
    fold_bytes(s, 0, Seq::empty(), Seq::empty(), Seq::empty())
}

/// Fold one line into the exec splitter state.
fn process_line(line: &Vec<u8>, acc: &mut Vec<u8>, out: &mut Vec<Vec<u8>>)
    ensures
        final(acc)@ == fold_line(old(acc)@, old(out)@.map_values(|v: Vec<u8>| v@), line@).0,
        final(out)@.map_values(|v: Vec<u8>| v@) == fold_line(
            old(acc)@,
            old(out)@.map_values(|v: Vec<u8>| v@),
            line@,
        ).1,
{
    let skip = line.len() == 0 || (line.len() >= 2 && line[0] == 45 && line[1] == 45);
    if skip {
        return ;
    }
    if acc.len() > 0 {
        acc.push(32);
    }
    let mut i: usize = 0;
    let ghost joined = if old(acc)@.len() > 0 {
        old(acc)@ + seq![32u8] + line@
    } else {
        line@
    };
    while i < line.len()
        invariant
            i <= line.len(),
            acc@ =~= joined.take(joined.len() - line@.len() + i),
        decreases line.len() - i,
    {
        proof {
            assert(joined[joined.len() - line@.len() + i] == line@[i as int]);
        }
        acc.push(line[i]);
        i += 1;
    }
    proof {
        assert(acc@ =~= joined);
    }
    if acc[acc.len() - 1] == 59 {
        let done = clone_bytes(acc);
        acc.clear();
        out.push(done);
        proof {
            assert(out@.map_values(|v: Vec<u8>| v@) =~= old(out)@.map_values(|v: Vec<u8>| v@).push(
                joined,
            ));
        }
    }
}

/// Split a schema text into its statements.
pub fn schema_statements(schema: &Vec<u8>) -> (r: Vec<Vec<u8>>)
    ensures
        r@.map_values(|v: Vec<u8>| v@) == spec_schema_statements(schema@),
{
    let ghost s = schema@;
    let mut line: Vec<u8> = Vec::new();
    let mut acc: Vec<u8> = Vec::new();
    let mut out: Vec<Vec<u8>> = Vec::new();
    let mut i: usize = 0;
    proof {
        assert(out@.map_values(|v: Vec<u8>| v@) =~= Seq::<Seq<u8>>::empty());
        assert(line@ =~= Seq::<u8>::empty());
        assert(acc@ =~= Seq::<u8>::empty());
    }
    while i < schema.len()
        invariant
            i <= schema.len(),
            s == schema@,
            s.len() == schema.len(),
            fold_bytes(s, i as int, line@, acc@, out@.map_values(|v: Vec<u8>| v@))
                == spec_schema_statements(s),
        decreases schema.len() - i,
    {
        let b = schema[i];
        if b == 10 {
            let ghost raw = line@;
            if line.len() > 0 && line[line.len() - 1] == 13 {
                line.pop();
            }
            proof {
                assert(line@ == strip_cr(raw));
            }
            process_line(&line, &mut acc, &mut out);
            line.clear();
            proof {
                assert(line@ =~= Seq::<u8>::empty());
            }
        } else {
            line.push(b);
        }
        i += 1;
    }
    process_line(&line, &mut acc, &mut out);
    out
}

/// A bootstrap plan: the database to reset and the DDL statements to apply,
/// in order, after dropping and recreating it on a dedicated single
/// connection.
pub struct BootstrapPlan {
    pub db: Vec<u8>,
    pub statements: Vec<Vec<u8>>,
}

/// Build the bootstrap plan for a database name and a schema text.
pub fn bootstrap_plan(db: &Vec<u8>, schema: &Vec<u8>) -> (r: BootstrapPlan)
    ensures
        r.db@ == db@,
        r.statements@.map_values(|v: Vec<u8>| v@) == spec_schema_statements(schema@),
{
    BootstrapPlan { db: clone_bytes(db), statements: schema_statements(schema) }
}

/// A model of the database server: each database maps to the DDL applied to
/// it since creation.
pub open spec fn apply_drop(server: Map<Seq<u8>, Seq<Seq<u8>>>, db: Seq<u8>) -> Map<Seq<u8>, Seq<
    Seq<u8>,
>> {
    server.remove(db)
}

/// `CREATE DATABASE`: the database exists, with nothing applied yet.
pub open spec fn apply_create(server: Map<Seq<u8>, Seq<Seq<u8>>>, db: Seq<u8>) -> Map<Seq<u8>, Seq<
    Seq<u8>,
>> {
    server.insert(db, Seq::empty())
}

/// One DDL statement applied to an existing database.
pub open spec fn apply_ddl(server: Map<Seq<u8>, Seq<Seq<u8>>>, db: Seq<u8>, q: Seq<u8>) -> Map<
    Seq<u8>,
    Seq<Seq<u8>>,
> {
    if server.dom().contains(db) {
        server.insert(db, server[db].push(q))
    } else {
        server
    }
}

/// The plan's statements applied in order, from position `i`.
pub open spec fn apply_stmts(
    server: Map<Seq<u8>, Seq<Seq<u8>>>,
    db: Seq<u8>,
    stmts: Seq<Seq<u8>>,
    i: int,
) -> Map<Seq<u8>, Seq<Seq<u8>>>
    decreases stmts.len() - i when 0 <= i <= stmts.len()
{
    if i >= stmts.len() {
        server
    } else {
        apply_stmts(apply_ddl(server, db, stmts[i]), db, stmts, i + 1)
    }
}

/// A whole bootstrap run: drop, create, then apply every statement.
pub open spec fn apply_plan(
    server: Map<Seq<u8>, Seq<Seq<u8>>>,
    db: Seq<u8>,
    stmts: Seq<Seq<u8>>,
) -> Map<Seq<u8>, Seq<Seq<u8>>> {
    apply_stmts(apply_create(apply_drop(server, db), db), db, stmts, 0)
}

/// Applying statements to a server where the target holds `acc` appends them
/// to the target and touches nothing else.
proof fn lemma_apply_stmts(server: Map<Seq<u8>, Seq<Seq<u8>>>, db: Seq<u8>, stmts: Seq<Seq<u8>>, i: int)
    requires
        server.dom().contains(db),
        0 <= i <= stmts.len(),
    ensures
        apply_stmts(server, db, stmts, i).dom() == server.dom(),
        apply_stmts(server, db, stmts, i)[db] == server[db] + stmts.skip(i),
        forall|k: Seq<u8>|
            server.dom().contains(k) && k != db ==> #[trigger] apply_stmts(server, db, stmts, i)[k]
                == server[k],
    decreases stmts.len() - i,
{
    if i >= stmts.len() {
        assert(server[db] + stmts.skip(i) =~= server[db]);
    } else {
        let next = apply_ddl(server, db, stmts[i]);
        lemma_apply_stmts(next, db, stmts, i + 1);
        assert(next[db] + stmts.skip(i + 1) =~= server[db] + stmts.skip(i));
    }
}

/// A bootstrap run resets the target database to exactly the plan's
/// statements, whatever state it was in before, and leaves every other
/// database alone.
pub proof fn lemma_bootstrap_resets(server: Map<Seq<u8>, Seq<Seq<u8>>>, db: Seq<u8>, stmts: Seq<Seq<u8>>)
    ensures
        apply_plan(server, db, stmts) == server.insert(db, stmts),
{
    let base = apply_create(apply_drop(server, db), db);
    lemma_apply_stmts(base, db, stmts, 0);
    assert(base[db] + stmts.skip(0) =~= stmts);
    assert(apply_plan(server, db, stmts) =~~= server.insert(db, stmts));
}

/// Priming is idempotent: running the same bootstrap plan twice leaves the
/// same server state as running it once.
pub proof fn lemma_bootstrap_idempotent(server: Map<Seq<u8>, Seq<Seq<u8>>>, db: Seq<u8>, stmts: Seq<Seq<u8>>)
    ensures
        apply_plan(apply_plan(server, db, stmts), db, stmts) == apply_plan(server, db, stmts),
{
    lemma_bootstrap_resets(server, db, stmts);
    lemma_bootstrap_resets(apply_plan(server, db, stmts), db, stmts);
    assert(server.insert(db, stmts).insert(db, stmts) =~~= server.insert(db, stmts));
}

} // verus!
