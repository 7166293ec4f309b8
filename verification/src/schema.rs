//! The schema builder: turns a table's columns and an optional set of
//! partition column names into a `CREATE TABLE` statement. Partition columns
//! are excluded from the primary column list and declared in a separate
//! `PARTITIONED BY` clause; both lists keep schema order; storage is always
//! the columnar binary format (`STORED AS PARQUET`).

use vstd::prelude::*;
use vstd::string::StringExecFns;

use crate::errors::HiveError;
use crate::table::Column;
use crate::text::{join_all, join_seqs};
use crate::types::{hive_of, map_type, type_keyword, type_supported, SemanticType};

verus! {

/// Whether `name` occurs (by contents) in the partition-column list.
pub open spec fn name_listed(parts: Seq<String>, name: Seq<char>) -> bool {
    exists|j: int| 0 <= j < parts.len() && (#[trigger] parts[j])@ == name
}

/// The partition list as a sequence; `None` means no partition columns.
pub open spec fn parts_of(p: Option<Vec<String>>) -> Seq<String> {
    match p {
        None => Seq::empty(),
        Some(v) => v@,
    }
}

/// One column declaration: `<name> <TYPE>`.
pub open spec fn column_def(c: Column) -> Seq<char>
    recommends
        type_supported(c.dtype),
{
    c.name@ + " "@ + type_keyword(hive_of(c.dtype))
}

/// The declarations of the primary (non-partition) columns, in schema order.
pub open spec fn data_defs(cols: Seq<Column>, parts: Seq<String>) -> Seq<Seq<char>>
    decreases cols.len(),
{
    if cols.len() == 0 {
        Seq::empty()
    } else if name_listed(parts, cols.last().name@) {
        data_defs(cols.drop_last(), parts)
    } else {
        data_defs(cols.drop_last(), parts).push(column_def(cols.last()))
    }
}

/// The declarations of the partition columns, in schema order.
pub open spec fn part_defs(cols: Seq<Column>, parts: Seq<String>) -> Seq<Seq<char>>
    decreases cols.len(),
{
    if cols.len() == 0 {
        Seq::empty()
    } else if name_listed(parts, cols.last().name@) {
        part_defs(cols.drop_last(), parts).push(column_def(cols.last()))
    } else {
        part_defs(cols.drop_last(), parts)
    }
}

/// Whether every column's type has a warehouse mapping.
pub open spec fn schema_supported(cols: Seq<Column>) -> bool {
    forall|i: int| 0 <= i < cols.len() ==> type_supported((#[trigger] cols[i]).dtype)
}

/// `desc` describes the first unsupported column, which stands at `i`.
pub open spec fn unsupported_at(cols: Seq<Column>, i: int, desc: Seq<char>) -> bool {
    &&& 0 <= i < cols.len()
    &&& cols[i].dtype matches SemanticType::Other(s) && s@ == desc
    &&& forall|j: int| 0 <= j < i ==> type_supported((#[trigger] cols[j]).dtype)
}

/// The full `CREATE TABLE` statement for a supported schema.
pub open spec fn create_table_sql_spec(name: Seq<char>, cols: Seq<Column>, parts: Seq<String>)
    -> Seq<char> {
    let base = "CREATE TABLE "@ + name + " ("@ + join_seqs(data_defs(cols, parts), ", "@) + ")"@;
    if part_defs(cols, parts).len() > 0 {
        base + " PARTITIONED BY ("@ + join_seqs(part_defs(cols, parts), ", "@) + ")"@
            + " STORED AS PARQUET"@
    } else {
        base + " STORED AS PARQUET"@
    }
}

/// Whether `name` is one of the partition columns.
pub fn contains_name(parts: &Option<Vec<String>>, name: &String) -> (r: bool)
    ensures
        r == name_listed(parts_of(*parts), name@),
{
    match parts {
        None => false,
        Some(v) => {
            let mut j: usize = 0;
            while j < v.len()
                invariant
                    j <= v.len(),
                    parts_of(*parts) == v@,
                    forall|k: int| 0 <= k < j ==> (#[trigger] v@[k])@ != name@,
                decreases v.len() - j,
            {
                if v[j].eq(name) {
                    proof {
                        assert((parts_of(*parts)[j as int])@ == name@);
                    }
                    return true;
                }
                j = j + 1;
            }
            false
        },
    }
}

/// Renders one column declaration, `<name> <TYPE>`, or the error of its
/// unsupported type.
fn render_column_def(c: &Column) -> (r: Result<String, HiveError>)
    ensures
        type_supported(c.dtype) ==> (r matches Ok(s) && s@ == column_def(*c)),
        !type_supported(c.dtype) ==> (c.dtype matches SemanticType::Other(d) && (r matches Err(
            HiveError::UnsupportedType(m),
        ) && m@ == d@)),
{
    match map_type(&c.dtype) {
        Ok(ht) => {
            let mut s = c.name.clone();
            s.append(" ");
            s.append(ht.keyword());
            Ok(s)
        },
        Err(e) => Err(e),
    }
}

/// Builds the `CREATE TABLE` statement: primary columns in schema order with
/// partition columns filtered out, then `PARTITIONED BY` over the partition
/// columns (also schema order) when there are any, then the storage clause.
/// A column type outside the supported set aborts construction with
/// `UnsupportedType` for the first such column.
pub fn build_create_statement(
    table_name: &String,
    columns: &Vec<Column>,
    partition_cols: &Option<Vec<String>>,
) -> (r: Result<String, HiveError>)
    ensures
        schema_supported(columns@) ==> (r matches Ok(s) && s@ == create_table_sql_spec(
            table_name@,
            columns@,
            parts_of(*partition_cols),
        )),
        !schema_supported(columns@) ==> (r matches Err(HiveError::UnsupportedType(d)) && exists|
            i: int,
        | unsupported_at(columns@, i, d@)),
{
    let ghost parts = parts_of(*partition_cols);
    let mut data_defs_v: Vec<String> = Vec::new();
    let mut part_defs_v: Vec<String> = Vec::new();
    let mut i: usize = 0;
    while i < columns.len()
        invariant
            i <= columns.len(),
            parts == parts_of(*partition_cols),
            forall|j: int| 0 <= j < i ==> type_supported((#[trigger] columns@[j]).dtype),
            data_defs_v@.map_values(|p: String| p@) == data_defs(columns@.take(i as int), parts),
            part_defs_v@.map_values(|p: String| p@) == part_defs(columns@.take(i as int), parts),
        decreases columns.len() - i,
    {
        let def = match render_column_def(&columns[i]) {
            Ok(s) => s,
            Err(e) => {
                proof {
                    assert(unsupported_at(
                        columns@,
                        i as int,
                        columns@[i as int].dtype->Other_0@,
                    ));
                }
                return Err(e);
            },
        };
        proof {
            assert(columns@.take(i + 1).drop_last() =~= columns@.take(i as int));
            assert(columns@.take(i + 1).last() == columns@[i as int]);
        }
        if contains_name(partition_cols, &columns[i].name) {
            part_defs_v.push(def);
            proof {
                assert(part_defs_v@.map_values(|p: String| p@) =~= part_defs(
                    columns@.take(i + 1),
                    parts,
                ));
                assert(data_defs_v@.map_values(|p: String| p@) =~= data_defs(
                    columns@.take(i + 1),
                    parts,
                ));
            }
        } else {
            data_defs_v.push(def);
            proof {
                assert(data_defs_v@.map_values(|p: String| p@) =~= data_defs(
                    columns@.take(i + 1),
                    parts,
                ));
                assert(part_defs_v@.map_values(|p: String| p@) =~= part_defs(
                    columns@.take(i + 1),
                    parts,
                ));
            }
        }
        i = i + 1;
    }
    proof {
        assert(columns@.take(columns@.len() as int) =~= columns@);
    }
    let mut sql = String::from_str("CREATE TABLE ");
    sql.append(table_name.as_str());
    sql.append(" (");
    let joined = join_all(&data_defs_v, ", ");
    sql.append(joined.as_str());
    sql.append(")");
    if part_defs_v.len() > 0 {
        sql.append(" PARTITIONED BY (");
        let pjoined = join_all(&part_defs_v, ", ");
        sql.append(pjoined.as_str());
        sql.append(")");
    }
    sql.append(" STORED AS PARQUET");
    Ok(sql)
}

} // verus!
