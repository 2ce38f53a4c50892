use vstd::prelude::*;
use vstd::string::{StrSliceExecFns, StringExecFns};
use crate::config::holds_char;

verus! {

/// `s` with every double quote doubled.
pub open spec fn doubled_quotes(s: Seq<char>) -> Seq<char>
    decreases s.len(),
{
    if s.len() == 0 {
        Seq::empty()
    } else if s.last() == '"' {
        doubled_quotes(s.drop_last()) + "\"\""@
    } else {
        doubled_quotes(s.drop_last()).push(s.last())
    }
}

/// A CSV field as written: quoted, with inner quotes doubled, when it holds a
/// comma, a double quote or a line break; as it is otherwise.
pub open spec fn csv_field(s: Seq<char>) -> Seq<char> {
    if holds_char(s, ',') || holds_char(s, '"') || holds_char(s, '\n') {
        "\""@ + doubled_quotes(s) + "\""@
    } else {
        s
    }
}

/// Names joined with commas.
pub open spec fn comma_joined(names: Seq<Seq<char>>) -> Seq<char>
    decreases names.len(),
{
    if names.len() == 0 {
        Seq::empty()
    } else if names.len() == 1 {
        names[0]
    } else {
        comma_joined(names.drop_last()) + ","@ + names.last()
    }
}

/// Writes chat messages as JSON lines.
pub struct JsonFormatter;

impl JsonFormatter {
    /// The extension of the files it writes.
    pub fn file_extension(&self) -> (r: &'static str)
        ensures
            r@ == "jsonl"@,
    {
        "jsonl"
    }
}

/// Writes chat messages as CSV rows with the chosen columns.
pub struct CsvFormatter {
    pub columns: Vec<String>,
}

impl CsvFormatter {
    /// A formatter for the given columns, in order.
    pub fn new(columns: Vec<String>) -> (r: CsvFormatter)
        ensures
            r.columns == columns,
    {
        CsvFormatter { columns }
    }

    /// Every column a message offers, in the usual order.
    pub fn default_columns() -> (r: Vec<String>)
        ensures
            crate::config::names_of(r@) == seq![
                "id"@, "timestamp"@, "streamer"@, "username"@, "display_name"@, "message_text"@,
                "user_color"@, "badges"@, "viewer_count"@, "game_category"@, "stream_title"@,
            ],
    {
        let mut v: Vec<String> = Vec::new();
        v.push(String::from_str("id"));
        v.push(String::from_str("timestamp"));
        v.push(String::from_str("streamer"));
        v.push(String::from_str("username"));
        v.push(String::from_str("display_name"));
        v.push(String::from_str("message_text"));
        v.push(String::from_str("user_color"));
        v.push(String::from_str("badges"));
        v.push(String::from_str("viewer_count"));
        v.push(String::from_str("game_category"));
        v.push(String::from_str("stream_title"));
        assert(crate::config::names_of(v@) =~= seq![
            "id"@, "timestamp"@, "streamer"@, "username"@, "display_name"@, "message_text"@,
            "user_color"@, "badges"@, "viewer_count"@, "game_category"@, "stream_title"@,
        ]);
        v
    }

    /// The extension of the files it writes.
    pub fn file_extension(&self) -> (r: &'static str)
        ensures
            r@ == "csv"@,
    {
        "csv"
    }

    /// The header row: the column names joined with commas.
    pub fn header(&self) -> (r: String)
        ensures
            r@ == comma_joined(crate::config::names_of(self.columns@)),
    {
        let ghost names = crate::config::names_of(self.columns@);
        let mut out = String::new();
        let mut i: usize = 0;
        while i < self.columns.len()
            invariant
                names == crate::config::names_of(self.columns@),
                i <= self.columns@.len(),
                out@ == comma_joined(names.take(i as int)),
            decreases self.columns@.len() - i,
        {
            assert(names.take(i + 1).drop_last() == names.take(i as int));
            assert(names.take(i + 1).last() == self.columns@[i as int]@);
            if i > 0 {
                out.append(",");
            }
            out.append(self.columns[i].as_str());
            proof {
                if i == 0 {
                    assert(out@ =~= names.take(1)[0]);
                }
            }
            i = i + 1;
        }
        assert(names.take(i as int) == names);
        out
    }

    /// A field as written in a CSV row (see `csv_field`).
    pub fn escape_csv_field(field: &str) -> (r: String)
        ensures
            r@ == csv_field(field@),
    {
        let n = field.unicode_len();
        let mut special = false;
        let mut i: usize = 0;
        while i < n
            invariant
                n == field@.len(),
                i <= n,
                special == exists|j: int| 0 <= j < i && (field@[j] == ',' || field@[j] == '"' || field@[j] == '\n'),
            decreases n - i,
        {
            let c = field.get_char(i);
            if c == ',' || c == '"' || c == '\n' {
                special = true;
            }
            i = i + 1;
        }
        proof {
            if special {
                let j = choose|j: int| 0 <= j < n && (field@[j] == ',' || field@[j] == '"' || field@[j] == '\n');
                assert(holds_char(field@, field@[j]));
            } else {
                assert(!holds_char(field@, ','));
                assert(!holds_char(field@, '"'));
                assert(!holds_char(field@, '\n'));
            }
        }
        if !special {
            return String::from_str(field);
        }
        let mut out = String::from_str("\"");
        let mut k: usize = 0;
        while k < n
            invariant
                n == field@.len(),
                k <= n,
                out@ == "\""@ + doubled_quotes(field@.take(k as int)),
            decreases n - k,
        {
            assert(field@.take(k + 1).drop_last() == field@.take(k as int));
            assert(field@.take(k + 1).last() == field@[k as int]);
            let one = field.substring_char(k, k + 1);
            assert(one@ == seq![field@[k as int]]);
            if field.get_char(k) == '"' {
                out.append("\"\"");
            } else {
                out.append(one);
            }
            assert(out@ =~= "\""@ + doubled_quotes(field@.take(k + 1)));
            k = k + 1;
        }
        assert(field@.take(n as int) == field@);
        out.append("\"");
        out
    }
}

} // verus!
