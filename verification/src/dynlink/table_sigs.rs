//! The signatures of table functions, read from rows of the interface database.

use vstd::prelude::*;
use vstd::string::*;

use crate::text::{self, same};

verus! {

/// The errors of `serde_json`.
#[verifier::external_type_specification]
#[verifier::external_body]
pub struct ExJsonError(serde_json::Error);

/// The lists of lists of strings that a JSON text stands for, if it stands for some.
pub uninterp spec fn json_string_lists(text: Seq<char>) -> Option<Seq<Seq<Seq<char>>>>;

/// The list of pairs of strings that a JSON text stands for, if it stands for one.
pub uninterp spec fn json_string_pairs(text: Seq<char>) -> Option<Seq<(Seq<char>, Seq<char>)>>;

/// The texts that a vector of vectors of strings holds.
pub open spec fn string_lists(v: Seq<Vec<String>>) -> Seq<Seq<Seq<char>>> {
    v.map_values(|l: Vec<String>| text::strs(l@))
}

/// The pairs of texts that a vector of arrays of two strings holds.
pub open spec fn string_pairs(v: Seq<[String; 2]>) -> Seq<(Seq<char>, Seq<char>)> {
    v.map_values(|p: [String; 2]| (p@[0]@, p@[1]@))
}

/// Calls `serde_json::from_str` for a list of lists of strings. Nothing is claimed but that
/// what comes back depends on the text alone.
#[verifier::external_body]
fn parse_string_lists(json: &str) -> (r: Result<Vec<Vec<String>>, serde_json::Error>)
    ensures
        match r {
            Ok(v) => json_string_lists(json@) == Some(string_lists(v@)),
            Err(_) => json_string_lists(json@) is None,
        },
{
    serde_json::from_str::<Vec<Vec<String>>>(json)
}

/// Calls `serde_json::from_str` for a list of arrays of two strings. Nothing is claimed but
/// that what comes back depends on the text alone.
#[verifier::external_body]
fn parse_string_pairs(json: &str) -> (r: Result<Vec<[String; 2]>, serde_json::Error>)
    ensures
        match r {
            Ok(v) => json_string_pairs(json@) == Some(string_pairs(v@)),
            Err(_) => json_string_pairs(json@) is None,
        },
{
    serde_json::from_str::<Vec<[String; 2]>>(json)
}

/// A row of the interface database about a table function.
pub struct TableRow {
    pub name: String,
    /// A list of overloads, each a list of type tokens.
    pub param_types_json: String,
    /// A list of columns, each a name and a type token.
    pub output_columns_json: Option<String>,
}

/// The signature of a table function.
pub struct TableSig {
    pub param_tokens: Vec<String>,
    pub output_columns: Option<Vec<(String, String)>>,
}

/// What a signature says: the type tokens of the parameters, and the columns if they are known.
pub struct TableSigView {
    pub params: Seq<Seq<char>>,
    pub columns: Option<Seq<(Seq<char>, Seq<char>)>>,
}

impl View for TableSig {
    type V = TableSigView;

    open spec fn view(&self) -> TableSigView {
        TableSigView {
            params: text::strs(self.param_tokens@),
            columns: match self.output_columns {
                Some(c) => Some(crate::packages::pairs(c@)),
                None => None,
            },
        }
    }
}

/// Why the signatures could not be read: the JSON of a table function's parameters, or that of
/// its columns, is not what it should be.
pub enum TableSigError {
    ParamTypes { name: String, source: serde_json::Error },
    OutputColumns { name: String, source: serde_json::Error },
}

/// The parameters of a table function with these overloads: those of the first.
pub open spec fn first_overload(groups: Seq<Seq<Seq<char>>>) -> Seq<Seq<char>> {
    if groups.len() > 0 {
        groups[0]
    } else {
        Seq::empty()
    }
}

/// Makes a signature of parsed overloads and columns: the first overload counts.
pub fn table_sig(groups: &Vec<Vec<String>>, columns: &Option<Vec<[String; 2]>>) -> (r: TableSig)
    ensures
        r@.params == first_overload(string_lists(groups@)),
        match columns {
            Some(c) => r@.columns == Some(string_pairs(c@)),
            None => r@.columns is None,
        },
{
    let mut param_tokens: Vec<String> = Vec::new();
    if groups.len() > 0 {
        let first = &groups[0];
        let mut k: usize = 0;
        while k < first.len()
            invariant
                k <= first@.len(),
                param_tokens@.len() == k,
                forall|j: int| 0 <= j < k ==> #[trigger] param_tokens@[j]@ == first@[j]@,
            decreases first.len() - k,
        {
            param_tokens.push(first[k].clone());
            k = k + 1;
        }
        assert(text::strs(param_tokens@) =~= text::strs(first@));
        assert(string_lists(groups@)[0] == text::strs(first@));
    } else {
        assert(text::strs(param_tokens@) =~= Seq::<Seq<char>>::empty());
    }
    let output_columns = match columns {
        Some(c) => {
            let mut out: Vec<(String, String)> = Vec::new();
            let mut k: usize = 0;
            while k < c.len()
                invariant
                    k <= c@.len(),
                    out@.len() == k,
                    forall|j: int|
                        0 <= j < k ==> (#[trigger] out@[j]).0@ == c@[j]@[0]@ && out@[j].1@
                            == c@[j]@[1]@,
                decreases c.len() - k,
            {
                out.push((c[k][0].clone(), c[k][1].clone()));
                k = k + 1;
            }
            assert(crate::packages::pairs(out@) =~= string_pairs(c@));
            Some(out)
        },
        None => None,
    };
    TableSig { param_tokens, output_columns }
}

/// Whether a row tells its columns: the JSON is there, not empty and not the empty list.
pub open spec fn tells_columns(row: TableRow) -> bool {
    match row.output_columns_json {
        Some(s) => s@.len() > 0 && s@ != "[]"@,
        None => false,
    }
}

/// What is wrong with a row, if anything.
pub enum RowFault {
    Sound,
    ParamTypes,
    OutputColumns,
}

/// What is wrong with a row: the parameters are looked at first.
pub open spec fn row_fault(row: TableRow) -> RowFault {
    if json_string_lists(row.param_types_json@) is None {
        RowFault::ParamTypes
    } else if tells_columns(row) && json_string_pairs(row.output_columns_json->0@) is None {
        RowFault::OutputColumns
    } else {
        RowFault::Sound
    }
}

/// The signature that a row without fault tells.
pub open spec fn row_sig(row: TableRow) -> TableSigView {
    TableSigView {
        params: first_overload(json_string_lists(row.param_types_json@)->0),
        columns: if tells_columns(row) {
            json_string_pairs(row.output_columns_json->0@)
        } else {
            None
        },
    }
}

/// How many of the first `n` rows have more than one overload.
pub open spec fn count_overloaded(rows: Seq<TableRow>, n: nat) -> nat
    decreases n,
{
    if n == 0 {
        0
    } else if json_string_lists(rows[n - 1].param_types_json@)->0.len() > 1 {
        count_overloaded(rows, (n - 1) as nat) + 1
    } else {
        count_overloaded(rows, (n - 1) as nat)
    }
}

/// The position of the first row, at `k` or later, that has a fault, or the number of rows.
pub open spec fn faulty_from(rows: Seq<TableRow>, k: int) -> int
    decreases rows.len() - k,
{
    if k >= rows.len() || row_fault(rows[k]) != RowFault::Sound {
        k
    } else {
        faulty_from(rows, k + 1)
    }
}

/// Reads the signature of one row, and tells whether it has more than one overload.
pub fn read_row(row: &TableRow) -> (r: Result<(TableSig, bool), TableSigError>)
    ensures
        match r {
            Ok((sig, overloaded)) => {
                &&& row_fault(*row) == RowFault::Sound
                &&& sig@ == row_sig(*row)
                &&& overloaded == (json_string_lists(row.param_types_json@)->0.len() > 1)
            },
            Err(TableSigError::ParamTypes { name, source }) => row_fault(*row)
                == RowFault::ParamTypes && name@ == row.name@,
            Err(TableSigError::OutputColumns { name, source }) => row_fault(*row)
                == RowFault::OutputColumns && name@ == row.name@,
        },
{
    let groups = match parse_string_lists(row.param_types_json.as_str()) {
        Ok(groups) => groups,
        Err(source) => {
            return Err(TableSigError::ParamTypes { name: row.name.clone(), source });
        },
    };
    let columns = match &row.output_columns_json {
        Some(s) => {
            if s.as_str().is_empty() || same(s.as_str(), "[]") {
                None
            } else {
                match parse_string_pairs(s.as_str()) {
                    Ok(columns) => Some(columns),
                    Err(source) => {
                        return Err(TableSigError::OutputColumns { name: row.name.clone(), source });
                    },
                }
            }
        },
        None => None,
    };
    let overloaded = groups.len() > 1;
    assert(string_lists(groups@).len() == groups@.len());
    let sig = table_sig(&groups, &columns);
    Ok((sig, overloaded))
}

/// The signatures that were read, each with its function's name, and how many functions have
/// more than one overload.
pub struct TableSigs {
    pub sigs: Vec<(String, TableSig)>,
    pub overloaded: usize,
}

/// The names and signatures that were read.
pub open spec fn named_sigs(v: Seq<(String, TableSig)>) -> Seq<(Seq<char>, TableSigView)> {
    v.map_values(|p: (String, TableSig)| (p.0@, p.1@))
}

/// The names and signatures that the first `n` rows tell.
pub open spec fn told_sigs(rows: Seq<TableRow>, n: nat) -> Seq<(Seq<char>, TableSigView)> {
    Seq::new(n, |k: int| (rows[k].name@, row_sig(rows[k])))
}

/// Reads the signatures of all rows; the first row with a fault ends it.
pub fn load_table_sigs(rows: &Vec<TableRow>) -> (r: Result<TableSigs, TableSigError>)
    ensures
        match r {
            Ok(t) => {
                &&& faulty_from(rows@, 0) == rows@.len()
                &&& named_sigs(t.sigs@) == told_sigs(rows@, rows@.len())
                &&& t.overloaded == count_overloaded(rows@, rows@.len())
            },
            Err(TableSigError::ParamTypes { name, source }) => {
                let k = faulty_from(rows@, 0);
                k < rows@.len() && row_fault(rows@[k]) == RowFault::ParamTypes && name@
                    == rows@[k].name@
            },
            Err(TableSigError::OutputColumns { name, source }) => {
                let k = faulty_from(rows@, 0);
                k < rows@.len() && row_fault(rows@[k]) == RowFault::OutputColumns && name@
                    == rows@[k].name@
            },
        },
{
    let mut sigs: Vec<(String, TableSig)> = Vec::new();
    let mut overloaded: usize = 0;
    let mut k: usize = 0;
    assert(named_sigs(sigs@) =~= told_sigs(rows@, 0));
    while k < rows.len()
        invariant
            k <= rows@.len(),
            overloaded <= k,
            overloaded == count_overloaded(rows@, k as nat),
            faulty_from(rows@, 0) == faulty_from(rows@, k as int),
            named_sigs(sigs@) == told_sigs(rows@, k as nat),
        decreases rows.len() - k,
    {
        match read_row(&rows[k]) {
            Ok((sig, more)) => {
                if more {
                    overloaded = overloaded + 1;
                }
                let ghost was = named_sigs(sigs@);
                let ghost added = (rows@[k as int].name@, sig@);
                sigs.push((rows[k].name.clone(), sig));
                proof {
                    assert(named_sigs(sigs@) =~= was.push(added));
                    assert(told_sigs(rows@, (k + 1) as nat) =~= told_sigs(rows@, k as nat).push(
                        added,
                    ));
                }
            },
            Err(e) => {
                return Err(e);
            },
        }
        k = k + 1;
    }
    Ok(TableSigs { sigs, overloaded })
}

/// The signature of `name` among the first `n`: the last one given counts.
pub open spec fn sig_of(v: Seq<(Seq<char>, TableSigView)>, name: Seq<char>, n: nat) -> Option<
    TableSigView,
>
    decreases n,
{
    if n == 0 {
        None
    } else if v[n - 1].0 == name {
        Some(v[n - 1].1)
    } else {
        sig_of(v, name, (n - 1) as nat)
    }
}

/// Finds the signature of `name`: the last one given counts.
pub fn find_sig<'a>(v: &'a Vec<(String, TableSig)>, name: &str) -> (r: Option<&'a TableSig>)
    ensures
        match r {
            Some(sig) => sig_of(named_sigs(v@), name@, v@.len()) == Some(sig@),
            None => sig_of(named_sigs(v@), name@, v@.len()) is None,
        },
{
    let ghost all = named_sigs(v@);
    let mut n: usize = v.len();
    while n > 0
        invariant
            n <= v@.len(),
            all == named_sigs(v@),
            sig_of(all, name@, v@.len()) == sig_of(all, name@, n as nat),
        decreases n,
    {
        if same(v[n - 1].0.as_str(), name) {
            assert(all[n - 1].1 == v@[n - 1].1@);
            return Some(&v[n - 1].1);
        }
        n = n - 1;
    }
    None
}

} // verus!
