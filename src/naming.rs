//! Names used by the tick-file conversion jobs: which directory entries
//! are inputs, the name a job works under, and the files it writes.
use vstd::prelude::*;
use vstd::string::*;

verus! {

/// The extension of the input files, as characters.
pub open spec fn csv_ext() -> Seq<char> {
    seq!['.', 'c', 's', 'v']
}

/// `s` holds the input extension starting at position `i`.
pub open spec fn csv_at(s: Seq<char>, i: int) -> bool {
    0 <= i && i + 4 <= s.len() && s.subrange(i, i + 4) == csv_ext()
}

/// `s` names an input file: it ends with the input extension.
pub open spec fn is_csv_name(s: Seq<char>) -> bool {
    s.len() >= 4 && csv_at(s, s.len() - 4)
}

/// The input names among `names`, in their order.
pub open spec fn csv_names(names: Seq<Seq<char>>) -> Seq<Seq<char>>
    decreases names.len(),
{
    if names.len() == 0 {
        Seq::empty()
    } else if is_csv_name(names.last()) {
        csv_names(names.drop_last()).push(names.last())
    } else {
        csv_names(names.drop_last())
    }
}

/// The characters of each string of `v`.
pub open spec fn views(v: Seq<String>) -> Seq<Seq<char>> {
    v.map_values(|s: String| s@)
}

/// Whether the input extension starts at character `i` of `s`.
fn csv_at_exec(s: &str, i: usize) -> (r: bool)
    requires
        i <= s@.len(),
    ensures
        r == csv_at(s@, i as int),
{
    let n = s.unicode_len();
    if n < 4 || i > n - 4 {
        return false;
    }
    let r = s.get_char(i) == '.' && s.get_char(i + 1) == 'c' && s.get_char(i + 2) == 's'
        && s.get_char(i + 3) == 'v';
    assert(r ==> s@.subrange(i as int, i + 4) =~= csv_ext());
    assert(s@.subrange(i as int, i + 4) =~= csv_ext() ==> s@[i as int] == '.' && s@[i + 1]
        == 'c' && s@[i + 2] == 's' && s@[i + 3] == 'v') by {
        if s@.subrange(i as int, i + 4) =~= csv_ext() {
            assert(s@.subrange(i as int, i + 4)[0] == s@[i as int]);
            assert(s@.subrange(i as int, i + 4)[1] == s@[i + 1]);
            assert(s@.subrange(i as int, i + 4)[2] == s@[i + 2]);
            assert(s@.subrange(i as int, i + 4)[3] == s@[i + 3]);
        }
    }
    r
}

/// Whether a directory entry named `name` is an input file, that is, ends
/// with `.csv`.
pub fn is_csv_file(name: &str) -> (r: bool)
    ensures
        r == is_csv_name(name@),
{
    let n = name.unicode_len();
    if n < 4 {
        return false;
    }
    csv_at_exec(name, n - 4)
}

/// The input files among the directory entries `names`, in their order.
pub fn csv_files(names: &Vec<String>) -> (r: Vec<String>)
    ensures
        views(r@) == csv_names(views(names@)),
{
    let mut r: Vec<String> = Vec::new();
    let mut i: usize = 0;
    while i < names.len()
        invariant
            i <= names@.len(),
            views(r@) == csv_names(views(names@.take(i as int))),
        decreases names@.len() - i,
    {
        let name = names[i].as_str();
        assert(views(names@.take(i as int + 1)).drop_last() =~= views(names@.take(i as int)));
        assert(views(names@.take(i as int + 1)).last() == names@[i as int]@);
        if is_csv_file(name) {
            let ghost before = r@;
            r.push(String::from_str(name));
            assert(views(r@) =~= views(before).push(name@));
        }
        i = i + 1;
    }
    assert(names@.take(i as int) =~= names@);
    r
}

/// The name a job works under: the part of the file name before the first
/// `.csv`, or the whole name when it holds none.
pub fn job_name(file: &str) -> (r: String)
    ensures
        r@.len() <= file@.len(),
        r@ == file@.take(r@.len() as int),
        forall|i: int| 0 <= i < r@.len() ==> !csv_at(file@, i),
        r@.len() == file@.len() || csv_at(file@, r@.len() as int),
{
    let n = file.unicode_len();
    let mut i: usize = 0;
    while i < n
        invariant
            n == file@.len(),
            i <= n,
            forall|k: int| 0 <= k < i ==> !csv_at(file@, k),
        ensures
            i <= n,
            forall|k: int| 0 <= k < i ==> !csv_at(file@, k),
            i == n || csv_at(file@, i as int),
        decreases n - i,
    {
        if csv_at_exec(file, i) {
            break;
        }
        i = i + 1;
    }
    let r = String::from_str(file.substring_char(0, i));
    assert(r@ =~= file@.take(i as int));
    r
}

/// `path` is read relative to the project's own directory: it starts
/// with `.`.
pub fn is_project_relative(path: &str) -> (r: bool)
    ensures
        r == (path@.len() > 0 && path@[0] == '.'),
{
    path.unicode_len() > 0 && path.get_char(0) == '.'
}

/// The format the converted files are written in.
#[derive(Clone, Copy, Debug, PartialEq, Eq, Structural)]
pub enum OutputFormat {
    Parquet,
    Csv,
}

/// The format named `name`: `parquet` selects Parquet, any other name CSV.
pub fn output_format(name: &str) -> (r: OutputFormat)
    ensures
        r == (if name@ == "parquet"@ {
            OutputFormat::Parquet
        } else {
            OutputFormat::Csv
        }),
{
    proof {
        reveal_strlit("parquet");
    }
    let word = "parquet";
    let n = name.unicode_len();
    if n != 7 {
        return OutputFormat::Csv;
    }
    let mut i: usize = 0;
    while i < 7
        invariant
            n == name@.len(),
            n == 7,
            word@ == "parquet"@,
            word@.len() == 7,
            i <= 7,
            forall|k: int| 0 <= k < i ==> name@[k] == word@[k],
        decreases 7 - i,
    {
        if name.get_char(i) != word.get_char(i) {
            return OutputFormat::Csv;
        }
        i = i + 1;
    }
    assert(name@ =~= "parquet"@);
    OutputFormat::Parquet
}

/// The extension of files written in format `f`.
pub open spec fn extension_of(f: OutputFormat) -> Seq<char> {
    match f {
        OutputFormat::Parquet => ".parquet"@,
        OutputFormat::Csv => ".csv"@,
    }
}

/// The file that job `name` reads.
pub fn input_file_name(name: &str) -> (r: String)
    ensures
        r@ == name@ + ".csv"@,
{
    String::from_str(name).concat(".csv")
}

/// The file that job `name` writes in format `f`.
pub fn output_file_name(name: &str, f: OutputFormat) -> (r: String)
    ensures
        r@ == name@ + extension_of(f),
{
    match f {
        OutputFormat::Parquet => String::from_str(name).concat(".parquet"),
        OutputFormat::Csv => String::from_str(name).concat(".csv"),
    }
}

} // verus!
