//! Canonical payloads can be read back: every part of a payload ends where only it can
//! end, so two requests with the same payload say the same.

use crate::cache::canonical::{
    date_payload, dimension_names, direction_name, exposure_list, exposure_names,
    exposure_payload, filters_payload, id_list, json_array, json_bool, json_escaped,
    json_numbers, json_string, json_strings, json_text, metric_names, name_list, pivot_payload,
    pnl_payload, range_payload, sort_payload, view_name,
};
use crate::cache::key::hex_digit;
use crate::models::request::{
    DateRangeView, ExposureQueryView, ExposureType, ExposureView, PivotFiltersView,
    PivotRequestView, PnlQueryView, SortDirection, SortSpecView,
};
use crate::query::builder::{compile, dimension_columns, exposure_name, plan_of};
use crate::query::dimensions::lemma_columns_distinct;
use crate::query::metrics::lemma_symbols_distinct;
use crate::query::{Dimension, Metric};
use crate::text::{
    ascii_digit, decimal, ends, join, lemma_decimal_digits, lemma_decimal_value,
};
use vstd::prelude::*;

verus! {

/// Text that follows the same beginning is the same text.
proof fn lemma_cancel_prefix(head: Seq<char>, x: Seq<char>, y: Seq<char>)
    requires
        head + x == head + y,
    ensures
        x == y,
{
    assert(x =~= (head + x).skip(head.len() as int));
    assert(y =~= (head + y).skip(head.len() as int));
}

/// Whether a character is written as an escape inside a JSON string.
spec fn escaped_char(c: char) -> bool {
    c == '"' || c == '\\' || (c as u32) < 0x20
}

/// An escape begins with a backslash, and nothing else does: a character that needs no
/// escape is written as itself, and is neither a quote nor a backslash.
proof fn lemma_escape_begins(c: char)
    ensures
        json_escaped(c).len() >= 1,
        escaped_char(c) ==> json_escaped(c)[0] == '\\' && json_escaped(c).len() >= 2,
        !escaped_char(c) ==> json_escaped(c) == seq![c],
        json_escaped(c)[0] != '"',
{
    reveal_strlit("\\\"");
    reveal_strlit("\\\\");
    reveal_strlit("\\b");
    reveal_strlit("\\t");
    reveal_strlit("\\n");
    reveal_strlit("\\f");
    reveal_strlit("\\r");
    reveal_strlit("\\u00");
}

/// The way a character is written tells the character and where its writing ends.
pub proof fn lemma_escape_delimits(a: char, b: char, x: Seq<char>, y: Seq<char>)
    requires
        json_escaped(a) + x == json_escaped(b) + y,
    ensures
        a == b,
        x == y,
{
    reveal_strlit("\\\"");
    reveal_strlit("\\\\");
    reveal_strlit("\\b");
    reveal_strlit("\\t");
    reveal_strlit("\\n");
    reveal_strlit("\\f");
    reveal_strlit("\\r");
    reveal_strlit("\\u00");
    let ea = json_escaped(a);
    let eb = json_escaped(b);
    lemma_escape_begins(a);
    lemma_escape_begins(b);
    assert((ea + x)[0] == ea[0]);
    assert((eb + y)[0] == eb[0]);
    if escaped_char(a) {
        assert(escaped_char(b));
        assert((ea + x)[1] == ea[1]);
        assert((eb + y)[1] == eb[1]);
        if ea[1] == 'u' {
            assert(ea.len() == 6 && eb.len() == 6);
            assert((ea + x)[4] == ea[4]);
            assert((eb + y)[4] == eb[4]);
            assert((ea + x)[5] == ea[5]);
            assert((eb + y)[5] == eb[5]);
            let ha = ((a as u32) / 16) as nat;
            let la = ((a as u32) % 16) as nat;
            let hb = ((b as u32) / 16) as nat;
            let lb = ((b as u32) % 16) as nat;
            assert(hex_digit(ha) == hex_digit(hb));
            assert(hex_digit(la) == hex_digit(lb));
            assert(ha == hb && la == lb);
            assert(a as u32 == b as u32);
        }
    } else {
        assert(!escaped_char(b));
    }
    assert(a == b);
    lemma_cancel_prefix(ea, x, y);
}

/// The characters of a text can be written from its first character on.
proof fn lemma_json_text_front(text: Seq<char>)
    requires
        text.len() > 0,
    ensures
        json_text(text) == json_escaped(text[0]) + json_text(text.drop_first()),
    decreases text.len(),
{
    if text.len() == 1 {
        assert(text.drop_last() =~= Seq::<char>::empty());
        assert(text.drop_first() =~= Seq::<char>::empty());
        assert(json_text(text) =~= json_escaped(text[0]) + json_text(text.drop_first()));
    } else {
        let init = text.drop_last();
        lemma_json_text_front(init);
        assert(init.drop_first() =~= text.drop_first().drop_last());
        assert(text.drop_first().last() == text.last());
        assert(init[0] == text[0]);
        assert(json_text(text) =~= json_escaped(text[0]) + json_text(text.drop_first()));
    }
}

/// The rest of a JSON string from somewhere inside it: what is left of the text, the
/// closing quote, and what follows the string.
spec fn closing(text: Seq<char>, rest: Seq<char>) -> Seq<char> {
    json_text(text) + ("\""@ + rest)
}

/// Inside a JSON string, what is left of it tells the text and what follows the string.
proof fn lemma_closing_delimits(a: Seq<char>, b: Seq<char>, x: Seq<char>, y: Seq<char>)
    requires
        closing(a, x) == closing(b, y),
    ensures
        a == b,
        x == y,
    decreases a.len(),
{
    reveal_strlit("\"");
    let quote = "\""@;
    assert(quote.len() == 1 && quote[0] == '"');
    if a.len() == 0 {
        assert(closing(a, x) =~= quote + x);
        assert((quote + x)[0] == '"');
        if b.len() > 0 {
            lemma_json_text_front(b);
            lemma_escape_begins(b[0]);
            let eb = json_escaped(b[0]);
            assert(closing(b, y) =~= eb + closing(b.drop_first(), y));
            assert((eb + closing(b.drop_first(), y))[0] == eb[0]);
            assert(false);
        }
        assert(closing(b, y) =~= quote + y);
        lemma_cancel_prefix(quote, x, y);
        assert(a =~= b);
    } else {
        lemma_json_text_front(a);
        lemma_escape_begins(a[0]);
        let ea = json_escaped(a[0]);
        assert(closing(a, x) =~= ea + closing(a.drop_first(), x));
        assert((ea + closing(a.drop_first(), x))[0] == ea[0]);
        if b.len() == 0 {
            assert(closing(b, y) =~= quote + y);
            assert((quote + y)[0] == '"');
            assert(false);
        }
        lemma_json_text_front(b);
        let eb = json_escaped(b[0]);
        assert(closing(b, y) =~= eb + closing(b.drop_first(), y));
        lemma_escape_delimits(a[0], b[0], closing(a.drop_first(), x), closing(b.drop_first(), y));
        lemma_closing_delimits(a.drop_first(), b.drop_first(), x, y);
        assert(a =~= seq![a[0]] + a.drop_first());
        assert(b =~= seq![b[0]] + b.drop_first());
    }
}

/// A JSON string tells its text and where it ends.
pub proof fn lemma_string_delimits(a: Seq<char>, b: Seq<char>, x: Seq<char>, y: Seq<char>)
    requires
        json_string(a) + x == json_string(b) + y,
    ensures
        a == b,
        x == y,
{
    let quote = "\""@;
    assert(json_string(a) + x =~= quote + closing(a, x));
    assert(json_string(b) + y =~= quote + closing(b, y));
    lemma_cancel_prefix(quote, closing(a, x), closing(b, y));
    lemma_closing_delimits(a, b, x, y);
}

/// A JSON string begins with a quote.
proof fn lemma_string_begins(text: Seq<char>, rest: Seq<char>)
    ensures
        (json_string(text) + rest).len() >= 2,
        (json_string(text) + rest)[0] == '"',
{
    reveal_strlit("\"");
}

/// Whether text ends here or goes on with something that is no digit.
pub open spec fn ends_numeral(rest: Seq<char>) -> bool {
    rest.len() == 0 || !ascii_digit(rest[0])
}

/// A numeral tells its number and where it ends, if what follows it is no digit.
pub proof fn lemma_decimal_delimits(a: nat, b: nat, x: Seq<char>, y: Seq<char>)
    requires
        decimal(a) + x == decimal(b) + y,
        ends_numeral(x),
        ends_numeral(y),
    ensures
        a == b,
        x == y,
{
    lemma_decimal_value(a);
    lemma_decimal_value(b);
    let da = decimal(a);
    let db = decimal(b);
    assert((da + x).len() == da.len() + x.len());
    assert((db + y).len() == db.len() + y.len());
    if da.len() < db.len() {
        assert((da + x)[da.len() as int] == x[0]);
        assert((db + y)[da.len() as int] == db[da.len() as int]);
        assert(ascii_digit(db[da.len() as int]));
        assert(false);
    }
    if db.len() < da.len() {
        assert((db + y)[db.len() as int] == y[0]);
        assert((da + x)[db.len() as int] == da[db.len() as int]);
        assert(ascii_digit(da[db.len() as int]));
        assert(false);
    }
    assert(da =~= (da + x).take(da.len() as int));
    assert(db =~= (db + y).take(db.len() as int));
    lemma_cancel_prefix(da, x, y);
}

/// A numeral begins with a digit.
proof fn lemma_decimal_begins(n: nat, rest: Seq<char>)
    ensures
        (decimal(n) + rest).len() >= 1,
        ascii_digit((decimal(n) + rest)[0]),
{
    lemma_decimal_value(n);
    lemma_decimal_digits(n);
    assert((decimal(n) + rest)[0] == decimal(n)[0]);
}

/// Parts joined by a separator can be written from the first part on.
proof fn lemma_join_front(parts: Seq<Seq<char>>, sep: Seq<char>)
    requires
        parts.len() >= 2,
    ensures
        join(parts, sep) == parts[0] + (sep + join(parts.drop_first(), sep)),
    decreases parts.len(),
{
    let init = parts.drop_last();
    let tail = parts.drop_first();
    if parts.len() == 2 {
        assert(join(init, sep) == parts[0]);
        assert(join(tail, sep) == parts[1]);
        assert(join(parts, sep) =~= parts[0] + (sep + join(tail, sep)));
    } else {
        lemma_join_front(init, sep);
        assert(init[0] == parts[0]);
        assert(init.drop_first() =~= tail.drop_last());
        assert(tail.last() == parts.last());
        assert(join(parts, sep) =~= parts[0] + (sep + join(tail, sep)));
    }
}

/// The rest of an array from somewhere inside it: the items that are left, each but the
/// last followed by a comma, the closing bracket, and what follows the array.
spec fn items_then(items: Seq<Seq<char>>, rest: Seq<char>) -> Seq<char>
    decreases items.len(),
{
    if items.len() == 0 {
        "]"@ + rest
    } else if items.len() == 1 {
        items[0] + ("]"@ + rest)
    } else {
        items[0] + (","@ + items_then(items.drop_first(), rest))
    }
}

proof fn lemma_join_then(items: Seq<Seq<char>>, rest: Seq<char>)
    requires
        items.len() >= 1,
    ensures
        join(items, ","@) + ("]"@ + rest) == items_then(items, rest),
    decreases items.len(),
{
    if items.len() >= 2 {
        lemma_join_front(items, ","@);
        lemma_join_then(items.drop_first(), rest);
        assert(join(items, ","@) + ("]"@ + rest) =~= items[0] + (","@ + (join(
            items.drop_first(),
            ","@,
        ) + ("]"@ + rest))));
    }
}

/// An array can be written from its first item on.
proof fn lemma_array_front(items: Seq<Seq<char>>, rest: Seq<char>)
    ensures
        json_array(items) + rest == "["@ + items_then(items, rest),
{
    if items.len() == 0 {
        assert(json_array(items) + rest =~= "["@ + ("]"@ + rest));
    } else {
        lemma_join_then(items, rest);
        assert(json_array(items) + rest =~= "["@ + (join(items, ","@) + ("]"@ + rest)));
    }
}

/// Inside an array of strings, what is left of it tells the strings and what follows the
/// array.
proof fn lemma_string_items_delimit(
    a: Seq<Seq<char>>,
    b: Seq<Seq<char>>,
    x: Seq<char>,
    y: Seq<char>,
)
    requires
        items_then(json_strings(a), x) == items_then(json_strings(b), y),
    ensures
        a == b,
        x == y,
    decreases a.len(),
{
    reveal_strlit("]");
    reveal_strlit(",");
    let close = "]"@;
    let comma = ","@;
    let ia = json_strings(a);
    let ib = json_strings(b);
    if a.len() == 0 {
        assert((close + x)[0] == ']');
        if b.len() > 0 {
            let after = if b.len() == 1 {
                close + y
            } else {
                comma + items_then(ib.drop_first(), y)
            };
            lemma_string_begins(b[0], after);
            assert(false);
        }
        lemma_cancel_prefix(close, x, y);
        assert(a =~= b);
    } else {
        let after_a = if a.len() == 1 {
            close + x
        } else {
            comma + items_then(ia.drop_first(), x)
        };
        lemma_string_begins(a[0], after_a);
        if b.len() == 0 {
            assert((close + y)[0] == ']');
            assert(false);
        }
        let after_b = if b.len() == 1 {
            close + y
        } else {
            comma + items_then(ib.drop_first(), y)
        };
        lemma_string_delimits(a[0], b[0], after_a, after_b);
        assert(after_a[0] == if a.len() == 1 {
            ']'
        } else {
            ','
        });
        assert(after_b[0] == if b.len() == 1 {
            ']'
        } else {
            ','
        });
        if a.len() == 1 {
            lemma_cancel_prefix(close, x, y);
            assert(a =~= b);
        } else {
            lemma_cancel_prefix(comma, items_then(ia.drop_first(), x), items_then(ib.drop_first(), y));
            assert(ia.drop_first() =~= json_strings(a.drop_first()));
            assert(ib.drop_first() =~= json_strings(b.drop_first()));
            lemma_string_items_delimit(a.drop_first(), b.drop_first(), x, y);
            assert(a =~= seq![a[0]] + a.drop_first());
            assert(b =~= seq![b[0]] + b.drop_first());
        }
    }
}

/// An array of strings tells its strings and where it ends.
pub proof fn lemma_strings_delimit(a: Seq<Seq<char>>, b: Seq<Seq<char>>, x: Seq<char>, y: Seq<char>)
    requires
        json_array(json_strings(a)) + x == json_array(json_strings(b)) + y,
    ensures
        a == b,
        x == y,
{
    lemma_array_front(json_strings(a), x);
    lemma_array_front(json_strings(b), y);
    lemma_cancel_prefix(
        "["@,
        items_then(json_strings(a), x),
        items_then(json_strings(b), y),
    );
    lemma_string_items_delimit(a, b, x, y);
}

/// Inside an array of numbers, what is left of it tells the numbers and what follows the
/// array.
proof fn lemma_number_items_delimit(a: Seq<u32>, b: Seq<u32>, x: Seq<char>, y: Seq<char>)
    requires
        items_then(json_numbers(a), x) == items_then(json_numbers(b), y),
    ensures
        a == b,
        x == y,
    decreases a.len(),
{
    reveal_strlit("]");
    reveal_strlit(",");
    let close = "]"@;
    let comma = ","@;
    let ia = json_numbers(a);
    let ib = json_numbers(b);
    if a.len() == 0 {
        assert((close + x)[0] == ']');
        if b.len() > 0 {
            let after = if b.len() == 1 {
                close + y
            } else {
                comma + items_then(ib.drop_first(), y)
            };
            lemma_decimal_begins(b[0] as nat, after);
            assert(false);
        }
        lemma_cancel_prefix(close, x, y);
        assert(a =~= b);
    } else {
        let after_a = if a.len() == 1 {
            close + x
        } else {
            comma + items_then(ia.drop_first(), x)
        };
        lemma_decimal_begins(a[0] as nat, after_a);
        if b.len() == 0 {
            assert((close + y)[0] == ']');
            assert(false);
        }
        let after_b = if b.len() == 1 {
            close + y
        } else {
            comma + items_then(ib.drop_first(), y)
        };
        assert(after_a[0] == if a.len() == 1 {
            ']'
        } else {
            ','
        });
        assert(after_b[0] == if b.len() == 1 {
            ']'
        } else {
            ','
        });
        lemma_decimal_delimits(a[0] as nat, b[0] as nat, after_a, after_b);
        if a.len() == 1 {
            lemma_cancel_prefix(close, x, y);
            assert(a =~= b);
        } else {
            lemma_cancel_prefix(comma, items_then(ia.drop_first(), x), items_then(ib.drop_first(), y));
            assert(ia.drop_first() =~= json_numbers(a.drop_first()));
            assert(ib.drop_first() =~= json_numbers(b.drop_first()));
            lemma_number_items_delimit(a.drop_first(), b.drop_first(), x, y);
            assert(a =~= seq![a[0]] + a.drop_first());
            assert(b =~= seq![b[0]] + b.drop_first());
        }
    }
}

/// An array of numbers tells its numbers and where it ends.
pub proof fn lemma_numbers_delimit(a: Seq<u32>, b: Seq<u32>, x: Seq<char>, y: Seq<char>)
    requires
        json_array(json_numbers(a)) + x == json_array(json_numbers(b)) + y,
    ensures
        a == b,
        x == y,
{
    lemma_array_front(json_numbers(a), x);
    lemma_array_front(json_numbers(b), y);
    lemma_cancel_prefix(
        "["@,
        items_then(json_numbers(a), x),
        items_then(json_numbers(b), y),
    );
    lemma_number_items_delimit(a, b, x, y);
}

/// An optional text tells whether it is there, what it is, and where it ends.
proof fn lemma_date_delimits(
    a: Option<Seq<char>>,
    b: Option<Seq<char>>,
    x: Seq<char>,
    y: Seq<char>,
)
    requires
        date_payload(a) + x == date_payload(b) + y,
    ensures
        a == b,
        x == y,
{
    reveal_strlit("null");
    let null = "null"@;
    assert((null + x)[0] == 'n');
    assert((null + y)[0] == 'n');
    match (a, b) {
        (Some(s), Some(t)) => {
            lemma_string_delimits(s, t, x, y);
        },
        (Some(s), None) => {
            lemma_string_begins(s, x);
            assert(false);
        },
        (None, Some(t)) => {
            lemma_string_begins(t, y);
            assert(false);
        },
        (None, None) => {
            lemma_cancel_prefix(null, x, y);
        },
    }
}

/// An array begins with a bracket.
proof fn lemma_array_begins(items: Seq<Seq<char>>, rest: Seq<char>)
    ensures
        (json_array(items) + rest).len() >= 1,
        (json_array(items) + rest)[0] == '[',
{
    reveal_strlit("[");
}

/// An optional list of names tells whether it is there, what it holds, and where it ends.
proof fn lemma_name_list_delimits(
    a: Option<Seq<Seq<char>>>,
    b: Option<Seq<Seq<char>>>,
    x: Seq<char>,
    y: Seq<char>,
)
    requires
        name_list(a) + x == name_list(b) + y,
    ensures
        a == b,
        x == y,
{
    reveal_strlit("null");
    let null = "null"@;
    assert((null + x)[0] == 'n');
    assert((null + y)[0] == 'n');
    match (a, b) {
        (Some(s), Some(t)) => {
            lemma_strings_delimit(s, t, x, y);
        },
        (Some(s), None) => {
            lemma_array_begins(json_strings(s), x);
            assert(false);
        },
        (None, Some(t)) => {
            lemma_array_begins(json_strings(t), y);
            assert(false);
        },
        (None, None) => {
            lemma_cancel_prefix(null, x, y);
        },
    }
}

/// An optional list of ids tells whether it is there, what it holds, and where it ends.
proof fn lemma_id_list_delimits(
    a: Option<Seq<u32>>,
    b: Option<Seq<u32>>,
    x: Seq<char>,
    y: Seq<char>,
)
    requires
        id_list(a) + x == id_list(b) + y,
    ensures
        a == b,
        x == y,
{
    reveal_strlit("null");
    let null = "null"@;
    assert((null + x)[0] == 'n');
    assert((null + y)[0] == 'n');
    match (a, b) {
        (Some(s), Some(t)) => {
            lemma_numbers_delimit(s, t, x, y);
        },
        (Some(s), None) => {
            lemma_array_begins(json_numbers(s), x);
            assert(false);
        },
        (None, Some(t)) => {
            lemma_array_begins(json_numbers(t), y);
            assert(false);
        },
        (None, None) => {
            lemma_cancel_prefix(null, x, y);
        },
    }
}

/// The names of a list of exposure types.
spec fn exposure_texts(types: Seq<ExposureType>) -> Seq<Seq<char>> {
    Seq::new(types.len(), |i: int| exposure_name(types[i]))
}

/// The length, the first and the last character of each name.
spec fn exposure_ends(t: ExposureType) -> (nat, char, char) {
    match t {
        ExposureType::Direct => (6nat, 'D', 't'),
        ExposureType::Etf => (3nat, 'E', 'F'),
        ExposureType::Etc => (3nat, 'E', 'C'),
        ExposureType::Constituent => (11nat, 'C', 't'),
    }
}

proof fn lemma_exposure_ends(t: ExposureType)
    ensures
        ends(exposure_name(t)) == exposure_ends(t),
{
    reveal_strlit("Direct");
    reveal_strlit("ETF");
    reveal_strlit("ETC");
    reveal_strlit("Constituent");
}

/// No two exposure types share a name.
pub proof fn lemma_exposure_names_distinct(a: ExposureType, b: ExposureType)
    requires
        exposure_name(a) == exposure_name(b),
    ensures
        a == b,
{
    lemma_exposure_ends(a);
    lemma_exposure_ends(b);
}

/// An optional list of exposure types tells whether it is there, what it holds, and where
/// it ends.
proof fn lemma_exposure_list_delimits(
    a: Option<Seq<ExposureType>>,
    b: Option<Seq<ExposureType>>,
    x: Seq<char>,
    y: Seq<char>,
)
    requires
        exposure_list(a) + x == exposure_list(b) + y,
    ensures
        a == b,
        x == y,
{
    reveal_strlit("null");
    let null = "null"@;
    assert((null + x)[0] == 'n');
    assert((null + y)[0] == 'n');
    match (a, b) {
        (Some(s), Some(t)) => {
            assert(exposure_names(s) =~= json_strings(exposure_texts(s)));
            assert(exposure_names(t) =~= json_strings(exposure_texts(t)));
            lemma_strings_delimit(exposure_texts(s), exposure_texts(t), x, y);
            assert(s.len() == exposure_texts(s).len());
            assert(t.len() == exposure_texts(t).len());
            assert forall|i: int| 0 <= i < s.len() implies s[i] == t[i] by {
                assert(exposure_texts(s)[i] == exposure_texts(t)[i]);
                lemma_exposure_names_distinct(s[i], t[i]);
            }
            assert(s =~= t);
        },
        (Some(s), None) => {
            lemma_array_begins(exposure_names(s), x);
            assert(false);
        },
        (None, Some(t)) => {
            lemma_array_begins(exposure_names(t), y);
            assert(false);
        },
        (None, None) => {
            lemma_cancel_prefix(null, x, y);
        },
    }
}

/// An optional range of dates tells whether it is there, what it is, and where it ends.
proof fn lemma_range_delimits(
    a: Option<DateRangeView>,
    b: Option<DateRangeView>,
    x: Seq<char>,
    y: Seq<char>,
)
    requires
        range_payload(a) + x == range_payload(b) + y,
    ensures
        a == b,
        x == y,
{
    reveal_strlit("null");
    reveal_strlit("{\"start\":");
    let null = "null"@;
    let open = "{\"start\":"@;
    let mid = ",\"end\":"@;
    let close = "}"@;
    assert((null + x)[0] == 'n');
    assert((null + y)[0] == 'n');
    match (a, b) {
        (Some(s), Some(t)) => {
            let sa = json_string(s.end) + (close + x);
            let sb = json_string(t.end) + (close + y);
            assert(range_payload(a) + x =~= open + (json_string(s.start) + (mid + sa)));
            assert(range_payload(b) + y =~= open + (json_string(t.start) + (mid + sb)));
            lemma_cancel_prefix(
                open,
                json_string(s.start) + (mid + sa),
                json_string(t.start) + (mid + sb),
            );
            lemma_string_delimits(s.start, t.start, mid + sa, mid + sb);
            lemma_cancel_prefix(mid, sa, sb);
            lemma_string_delimits(s.end, t.end, close + x, close + y);
            lemma_cancel_prefix(close, x, y);
        },
        (Some(s), None) => {
            assert((range_payload(a) + x)[0] == open[0]);
            assert(false);
        },
        (None, Some(t)) => {
            assert((range_payload(b) + y)[0] == open[0]);
            assert(false);
        },
        (None, None) => {
            lemma_cancel_prefix(null, x, y);
        },
    }
}

/// The name of a sort direction tells the direction and where the name ends.
proof fn lemma_direction_delimits(a: SortDirection, b: SortDirection, x: Seq<char>, y: Seq<char>)
    requires
        direction_name(a) + x == direction_name(b) + y,
    ensures
        a == b,
        x == y,
{
    reveal_strlit("\"asc\"");
    reveal_strlit("\"desc\"");
    assert((direction_name(a) + x)[1] == direction_name(a)[1]);
    assert((direction_name(b) + y)[1] == direction_name(b)[1]);
    lemma_cancel_prefix(direction_name(a), x, y);
}

/// An optional sort tells whether it is there, what it is, and where it ends.
proof fn lemma_sort_delimits(
    a: Option<SortSpecView>,
    b: Option<SortSpecView>,
    x: Seq<char>,
    y: Seq<char>,
)
    requires
        sort_payload(a) + x == sort_payload(b) + y,
    ensures
        a == b,
        x == y,
{
    reveal_strlit("null");
    reveal_strlit("{\"field\":");
    let null = "null"@;
    let open = "{\"field\":"@;
    let mid = ",\"direction\":"@;
    let close = "}"@;
    assert((null + x)[0] == 'n');
    assert((null + y)[0] == 'n');
    match (a, b) {
        (Some(s), Some(t)) => {
            let sa = direction_name(s.direction) + (close + x);
            let sb = direction_name(t.direction) + (close + y);
            assert(sort_payload(a) + x =~= open + (json_string(s.field) + (mid + sa)));
            assert(sort_payload(b) + y =~= open + (json_string(t.field) + (mid + sb)));
            lemma_cancel_prefix(
                open,
                json_string(s.field) + (mid + sa),
                json_string(t.field) + (mid + sb),
            );
            lemma_string_delimits(s.field, t.field, mid + sa, mid + sb);
            lemma_cancel_prefix(mid, sa, sb);
            lemma_direction_delimits(s.direction, t.direction, close + x, close + y);
            lemma_cancel_prefix(close, x, y);
        },
        (Some(s), None) => {
            assert((sort_payload(a) + x)[0] == open[0]);
            assert(false);
        },
        (None, Some(t)) => {
            assert((sort_payload(b) + y)[0] == open[0]);
            assert(false);
        },
        (None, None) => {
            lemma_cancel_prefix(null, x, y);
        },
    }
}

/// A truth value tells itself and where it ends.
proof fn lemma_bool_delimits(a: bool, b: bool, x: Seq<char>, y: Seq<char>)
    requires
        json_bool(a) + x == json_bool(b) + y,
    ensures
        a == b,
        x == y,
{
    reveal_strlit("true");
    reveal_strlit("false");
    assert((json_bool(a) + x)[0] == json_bool(a)[0]);
    assert((json_bool(b) + y)[0] == json_bool(b)[0]);
    lemma_cancel_prefix(json_bool(a), x, y);
}

/// The rest of a record from a field on: each field behind its label, the closing brace,
/// and what follows the record.
spec fn record_from(
    labels: Seq<Seq<char>>,
    fields: Seq<Seq<char>>,
    k: int,
    rest: Seq<char>,
) -> Seq<char>
    decreases labels.len() - k,
{
    if 0 <= k < labels.len() {
        labels[k] + (fields[k] + record_from(labels, fields, k + 1, rest))
    } else {
        "}"@ + rest
    }
}

/// A record up to a field, the field not included.
spec fn record_upto(labels: Seq<Seq<char>>, fields: Seq<Seq<char>>, k: int) -> Seq<char>
    decreases k,
{
    if k <= 1 {
        labels[0] + fields[0]
    } else {
        record_upto(labels, fields, k - 1) + labels[k - 1] + fields[k - 1]
    }
}

proof fn lemma_regroup(a: Seq<char>, b: Seq<char>, c: Seq<char>, d: Seq<char>)
    ensures
        a + b + c + d == a + (b + (c + d)),
        a + b + c == a + (b + c),
{
    assert(a + b + c + d =~= a + (b + (c + d)));
    assert(a + b + c =~= a + (b + c));
}

proof fn lemma_record_step(labels: Seq<Seq<char>>, fields: Seq<Seq<char>>, k: int, rest: Seq<char>)
    requires
        0 <= k < labels.len(),
    ensures
        record_from(labels, fields, k, rest) == labels[k] + (fields[k] + record_from(
            labels,
            fields,
            k + 1,
            rest,
        )),
{
}

/// Two records with the same labels that agree from a field on agree on that field and
/// on everything behind it, taken together.
proof fn lemma_field_step(
    labels: Seq<Seq<char>>,
    fa: Seq<Seq<char>>,
    fb: Seq<Seq<char>>,
    k: int,
    x: Seq<char>,
    y: Seq<char>,
)
    requires
        0 <= k < labels.len(),
        record_from(labels, fa, k, x) == record_from(labels, fb, k, y),
    ensures
        fa[k] + record_from(labels, fa, k + 1, x) == fb[k] + record_from(labels, fb, k + 1, y),
        k + 1 < labels.len() && labels[k + 1].len() > 0 ==> {
            &&& record_from(labels, fa, k + 1, x)[0] == labels[k + 1][0]
            &&& record_from(labels, fb, k + 1, y)[0] == labels[k + 1][0]
        },
{
    lemma_record_step(labels, fa, k, x);
    lemma_record_step(labels, fb, k, y);
    lemma_cancel_prefix(
        labels[k],
        fa[k] + record_from(labels, fa, k + 1, x),
        fb[k] + record_from(labels, fb, k + 1, y),
    );
    if k + 1 < labels.len() && labels[k + 1].len() > 0 {
        lemma_record_step(labels, fa, k + 1, x);
        lemma_record_step(labels, fb, k + 1, y);
    }
}

proof fn lemma_record_split(
    labels: Seq<Seq<char>>,
    fields: Seq<Seq<char>>,
    k: int,
    rest: Seq<char>,
)
    requires
        1 <= k <= labels.len(),
    ensures
        record_upto(labels, fields, k) + record_from(labels, fields, k, rest) == record_upto(
            labels,
            fields,
            labels.len() as int,
        ) + "}"@ + rest,
    decreases labels.len() - k,
{
    let n = labels.len() as int;
    if k == n {
        lemma_regroup(record_upto(labels, fields, n), "}"@, rest, Seq::empty());
    } else {
        lemma_record_split(labels, fields, k + 1, rest);
        lemma_regroup(
            record_upto(labels, fields, k),
            labels[k],
            fields[k],
            record_from(labels, fields, k + 1, rest),
        );
    }
}

/// A record can be written field by field.
proof fn lemma_record_front(labels: Seq<Seq<char>>, fields: Seq<Seq<char>>, rest: Seq<char>)
    requires
        labels.len() >= 1,
    ensures
        record_upto(labels, fields, labels.len() as int) + "}"@ + rest == record_from(
            labels,
            fields,
            0,
            rest,
        ),
{
    lemma_record_split(labels, fields, 1, rest);
    lemma_regroup(labels[0], fields[0], record_from(labels, fields, 1, rest), Seq::empty());
}

proof fn lemma_record_ends(
    labels: Seq<Seq<char>>,
    fa: Seq<Seq<char>>,
    fb: Seq<Seq<char>>,
    x: Seq<char>,
    y: Seq<char>,
)
    requires
        record_from(labels, fa, labels.len() as int, x) == record_from(
            labels,
            fb,
            labels.len() as int,
            y,
        ),
    ensures
        x == y,
{
    lemma_cancel_prefix("}"@, x, y);
}

/// The labels of the filters, in the order of the catalogue.
spec fn filter_labels() -> Seq<Seq<char>> {
    seq![
        "{\"trade_date\":"@,
        ",\"trade_date_range\":"@,
        ",\"exposure_type\":"@,
        ",\"portfolio_manager_id\":"@,
        ",\"fund_id\":"@,
        ",\"asset_class\":"@,
        ",\"symbol\":"@,
        ",\"underlying_symbol\":"@,
        ",\"desk\":"@,
        ",\"book\":"@,
        ",\"region\":"@,
        ",\"country\":"@,
    ]
}

/// The filters as the payload holds them, in the order of the catalogue.
spec fn filter_fields(filters: PivotFiltersView) -> Seq<Seq<char>> {
    seq![
        date_payload(filters.trade_date),
        range_payload(filters.trade_date_range),
        exposure_list(filters.exposure_type),
        id_list(filters.portfolio_manager_id),
        id_list(filters.fund_id),
        name_list(filters.asset_class),
        name_list(filters.symbol),
        name_list(filters.underlying_symbol),
        name_list(filters.desk),
        name_list(filters.book),
        name_list(filters.region),
        name_list(filters.country),
    ]
}

/// The filters are a record of their fields.
proof fn lemma_filters_front(filters: PivotFiltersView, rest: Seq<char>)
    ensures
        filters_payload(filters) + rest == record_from(
            filter_labels(),
            filter_fields(filters),
            0,
            rest,
        ),
{
    let labels = filter_labels();
    let fields = filter_fields(filters);
    assert(filters_payload(filters) == record_upto(labels, fields, 12) + "}"@) by {
        reveal_with_fuel(record_upto, 13);
    }
    lemma_record_front(labels, fields, rest);
}

/// The filters of a payload tell every filter and where they end.
pub proof fn lemma_filters_delimit(
    a: PivotFiltersView,
    b: PivotFiltersView,
    x: Seq<char>,
    y: Seq<char>,
)
    requires
        filters_payload(a) + x == filters_payload(b) + y,
    ensures
        a == b,
        x == y,
{
    let labels = filter_labels();
    let fa = filter_fields(a);
    let fb = filter_fields(b);
    lemma_filters_front(a, x);
    lemma_filters_front(b, y);
    lemma_field_step(labels, fa, fb, 0, x, y);
    lemma_date_delimits(
        a.trade_date,
        b.trade_date,
        record_from(labels, fa, 1, x),
        record_from(labels, fb, 1, y),
    );
    lemma_field_step(labels, fa, fb, 1, x, y);
    lemma_range_delimits(
        a.trade_date_range,
        b.trade_date_range,
        record_from(labels, fa, 2, x),
        record_from(labels, fb, 2, y),
    );
    lemma_field_step(labels, fa, fb, 2, x, y);
    lemma_exposure_list_delimits(
        a.exposure_type,
        b.exposure_type,
        record_from(labels, fa, 3, x),
        record_from(labels, fb, 3, y),
    );
    lemma_field_step(labels, fa, fb, 3, x, y);
    lemma_id_list_delimits(
        a.portfolio_manager_id,
        b.portfolio_manager_id,
        record_from(labels, fa, 4, x),
        record_from(labels, fb, 4, y),
    );
    lemma_field_step(labels, fa, fb, 4, x, y);
    lemma_id_list_delimits(
        a.fund_id,
        b.fund_id,
        record_from(labels, fa, 5, x),
        record_from(labels, fb, 5, y),
    );
    lemma_field_step(labels, fa, fb, 5, x, y);
    lemma_name_list_delimits(
        a.asset_class,
        b.asset_class,
        record_from(labels, fa, 6, x),
        record_from(labels, fb, 6, y),
    );
    lemma_field_step(labels, fa, fb, 6, x, y);
    lemma_name_list_delimits(
        a.symbol,
        b.symbol,
        record_from(labels, fa, 7, x),
        record_from(labels, fb, 7, y),
    );
    lemma_field_step(labels, fa, fb, 7, x, y);
    lemma_name_list_delimits(
        a.underlying_symbol,
        b.underlying_symbol,
        record_from(labels, fa, 8, x),
        record_from(labels, fb, 8, y),
    );
    lemma_field_step(labels, fa, fb, 8, x, y);
    lemma_name_list_delimits(
        a.desk,
        b.desk,
        record_from(labels, fa, 9, x),
        record_from(labels, fb, 9, y),
    );
    lemma_field_step(labels, fa, fb, 9, x, y);
    lemma_name_list_delimits(
        a.book,
        b.book,
        record_from(labels, fa, 10, x),
        record_from(labels, fb, 10, y),
    );
    lemma_field_step(labels, fa, fb, 10, x, y);
    lemma_name_list_delimits(
        a.region,
        b.region,
        record_from(labels, fa, 11, x),
        record_from(labels, fb, 11, y),
    );
    lemma_field_step(labels, fa, fb, 11, x, y);
    lemma_name_list_delimits(
        a.country,
        b.country,
        record_from(labels, fa, 12, x),
        record_from(labels, fb, 12, y),
    );
    lemma_record_ends(labels, fa, fb, x, y);
}

/// The symbols of a list of metrics.
spec fn metric_symbols(metrics: Seq<Metric>) -> Seq<Seq<char>> {
    Seq::new(metrics.len(), |i: int| metrics[i].symbol())
}

/// The array of the dimensions tells every dimension and where it ends.
proof fn lemma_dimensions_delimit(
    a: Seq<Dimension>,
    b: Seq<Dimension>,
    x: Seq<char>,
    y: Seq<char>,
)
    requires
        json_array(dimension_names(a)) + x == json_array(dimension_names(b)) + y,
    ensures
        a == b,
        x == y,
{
    assert(dimension_names(a) =~= json_strings(dimension_columns(a)));
    assert(dimension_names(b) =~= json_strings(dimension_columns(b)));
    lemma_strings_delimit(dimension_columns(a), dimension_columns(b), x, y);
    assert(a.len() == dimension_columns(a).len());
    assert(b.len() == dimension_columns(b).len());
    assert forall|i: int| 0 <= i < a.len() implies a[i] == b[i] by {
        assert(dimension_columns(a)[i] == dimension_columns(b)[i]);
        lemma_columns_distinct(a[i], b[i]);
    }
    assert(a =~= b);
}

/// The array of the metrics tells every metric and where it ends.
proof fn lemma_metrics_delimit(a: Seq<Metric>, b: Seq<Metric>, x: Seq<char>, y: Seq<char>)
    requires
        json_array(metric_names(a)) + x == json_array(metric_names(b)) + y,
    ensures
        a == b,
        x == y,
{
    assert(metric_names(a) =~= json_strings(metric_symbols(a)));
    assert(metric_names(b) =~= json_strings(metric_symbols(b)));
    lemma_strings_delimit(metric_symbols(a), metric_symbols(b), x, y);
    assert(a.len() == metric_symbols(a).len());
    assert(b.len() == metric_symbols(b).len());
    assert forall|i: int| 0 <= i < a.len() implies a[i] == b[i] by {
        assert(metric_symbols(a)[i] == metric_symbols(b)[i]);
        lemma_symbols_distinct(a[i], b[i]);
    }
    assert(a =~= b);
}

/// The labels of a pivot request.
spec fn pivot_labels() -> Seq<Seq<char>> {
    seq![
        "{\"dimensions\":"@,
        ",\"metrics\":"@,
        ",\"filters\":"@,
        ",\"sort\":"@,
        ",\"limit\":"@,
        ",\"offset\":"@,
        ",\"cache_bypass\":"@,
    ]
}

/// The fields of a pivot request as the payload holds them.
spec fn pivot_fields(request: PivotRequestView) -> Seq<Seq<char>> {
    seq![
        json_array(dimension_names(request.dimensions)),
        json_array(metric_names(request.metrics)),
        filters_payload(request.filters),
        sort_payload(request.sort),
        decimal(request.limit as nat),
        decimal(request.offset as nat),
        json_bool(request.cache_bypass),
    ]
}

proof fn lemma_pivot_front(request: PivotRequestView)
    ensures
        pivot_payload(request) == record_from(
            pivot_labels(),
            pivot_fields(request),
            0,
            Seq::empty(),
        ),
{
    let labels = pivot_labels();
    let fields = pivot_fields(request);
    assert(pivot_payload(request) == record_upto(labels, fields, 7) + "}"@) by {
        reveal_with_fuel(record_upto, 8);
    }
    lemma_record_front(labels, fields, Seq::empty());
    lemma_regroup(record_upto(labels, fields, 7), "}"@, Seq::empty(), Seq::empty());
    assert("}"@ + Seq::<char>::empty() =~= "}"@);
}

/// The payload of a pivot request tells the request: two requests with the same payload
/// agree on every dimension, metric and filter, on the sort, the limit and the offset, and
/// on the cache flag.
pub proof fn lemma_pivot_payload_unique(a: PivotRequestView, b: PivotRequestView)
    requires
        pivot_payload(a) == pivot_payload(b),
    ensures
        a == b,
{
    reveal_strlit(",\"offset\":");
    reveal_strlit(",\"cache_bypass\":");
    let labels = pivot_labels();
    let fa = pivot_fields(a);
    let fb = pivot_fields(b);
    let end = Seq::<char>::empty();
    lemma_pivot_front(a);
    lemma_pivot_front(b);
    lemma_field_step(labels, fa, fb, 0, end, end);
    lemma_dimensions_delimit(
        a.dimensions,
        b.dimensions,
        record_from(labels, fa, 1, end),
        record_from(labels, fb, 1, end),
    );
    lemma_field_step(labels, fa, fb, 1, end, end);
    lemma_metrics_delimit(
        a.metrics,
        b.metrics,
        record_from(labels, fa, 2, end),
        record_from(labels, fb, 2, end),
    );
    lemma_field_step(labels, fa, fb, 2, end, end);
    lemma_filters_delimit(
        a.filters,
        b.filters,
        record_from(labels, fa, 3, end),
        record_from(labels, fb, 3, end),
    );
    lemma_field_step(labels, fa, fb, 3, end, end);
    lemma_sort_delimits(
        a.sort,
        b.sort,
        record_from(labels, fa, 4, end),
        record_from(labels, fb, 4, end),
    );
    lemma_field_step(labels, fa, fb, 4, end, end);
    lemma_decimal_delimits(
        a.limit as nat,
        b.limit as nat,
        record_from(labels, fa, 5, end),
        record_from(labels, fb, 5, end),
    );
    lemma_field_step(labels, fa, fb, 5, end, end);
    lemma_decimal_delimits(
        a.offset as nat,
        b.offset as nat,
        record_from(labels, fa, 6, end),
        record_from(labels, fb, 6, end),
    );
    lemma_field_step(labels, fa, fb, 6, end, end);
    lemma_bool_delimits(
        a.cache_bypass,
        b.cache_bypass,
        record_from(labels, fa, 7, end),
        record_from(labels, fb, 7, end),
    );
}

/// The name of a view tells the view and where the name ends.
proof fn lemma_view_delimits(a: ExposureView, b: ExposureView, x: Seq<char>, y: Seq<char>)
    requires
        view_name(a) + x == view_name(b) + y,
    ensures
        a == b,
        x == y,
{
    reveal_strlit("\"top_level\"");
    reveal_strlit("\"look_through\"");
    reveal_strlit("\"all\"");
    assert((view_name(a) + x)[1] == view_name(a)[1]);
    assert((view_name(b) + y)[1] == view_name(b)[1]);
    lemma_cancel_prefix(view_name(a), x, y);
}

/// The labels of an exposure query.
spec fn exposure_labels() -> Seq<Seq<char>> {
    seq!["{\"trade_date\":"@, ",\"group_by\":"@, ",\"view\":"@, ",\"cache_bypass\":"@]
}

/// The fields of an exposure query as the payload holds them.
spec fn exposure_fields(query: ExposureQueryView) -> Seq<Seq<char>> {
    seq![
        json_string(query.trade_date),
        json_string(query.group_by),
        view_name(query.view),
        json_bool(query.cache_bypass),
    ]
}

proof fn lemma_exposure_front(query: ExposureQueryView)
    ensures
        exposure_payload(query) == record_from(
            exposure_labels(),
            exposure_fields(query),
            0,
            Seq::empty(),
        ),
{
    let labels = exposure_labels();
    let fields = exposure_fields(query);
    assert(exposure_payload(query) == record_upto(labels, fields, 4) + "}"@) by {
        reveal_with_fuel(record_upto, 5);
    }
    lemma_record_front(labels, fields, Seq::empty());
    lemma_regroup(record_upto(labels, fields, 4), "}"@, Seq::empty(), Seq::empty());
    assert("}"@ + Seq::<char>::empty() =~= "}"@);
}

/// The payload of an exposure query tells the query.
pub proof fn lemma_exposure_payload_unique(a: ExposureQueryView, b: ExposureQueryView)
    requires
        exposure_payload(a) == exposure_payload(b),
    ensures
        a == b,
{
    let labels = exposure_labels();
    let fa = exposure_fields(a);
    let fb = exposure_fields(b);
    let end = Seq::<char>::empty();
    lemma_exposure_front(a);
    lemma_exposure_front(b);
    lemma_field_step(labels, fa, fb, 0, end, end);
    lemma_string_delimits(
        a.trade_date,
        b.trade_date,
        record_from(labels, fa, 1, end),
        record_from(labels, fb, 1, end),
    );
    lemma_field_step(labels, fa, fb, 1, end, end);
    lemma_string_delimits(
        a.group_by,
        b.group_by,
        record_from(labels, fa, 2, end),
        record_from(labels, fb, 2, end),
    );
    lemma_field_step(labels, fa, fb, 2, end, end);
    lemma_view_delimits(
        a.view,
        b.view,
        record_from(labels, fa, 3, end),
        record_from(labels, fb, 3, end),
    );
    lemma_field_step(labels, fa, fb, 3, end, end);
    lemma_bool_delimits(
        a.cache_bypass,
        b.cache_bypass,
        record_from(labels, fa, 4, end),
        record_from(labels, fb, 4, end),
    );
}

/// The labels of a profit-and-loss query.
spec fn pnl_labels() -> Seq<Seq<char>> {
    seq!["{\"trade_date\":"@, ",\"group_by\":"@, ",\"cache_bypass\":"@]
}

/// The fields of a profit-and-loss query as the payload holds them.
spec fn pnl_fields(query: PnlQueryView) -> Seq<Seq<char>> {
    seq![json_string(query.trade_date), json_string(query.group_by), json_bool(query.cache_bypass)]
}

proof fn lemma_pnl_front(query: PnlQueryView)
    ensures
        pnl_payload(query) == record_from(pnl_labels(), pnl_fields(query), 0, Seq::empty()),
{
    let labels = pnl_labels();
    let fields = pnl_fields(query);
    assert(pnl_payload(query) == record_upto(labels, fields, 3) + "}"@) by {
        reveal_with_fuel(record_upto, 4);
    }
    lemma_record_front(labels, fields, Seq::empty());
    lemma_regroup(record_upto(labels, fields, 3), "}"@, Seq::empty(), Seq::empty());
    assert("}"@ + Seq::<char>::empty() =~= "}"@);
}

/// The payload of a profit-and-loss query tells the query.
pub proof fn lemma_pnl_payload_unique(a: PnlQueryView, b: PnlQueryView)
    requires
        pnl_payload(a) == pnl_payload(b),
    ensures
        a == b,
{
    let labels = pnl_labels();
    let fa = pnl_fields(a);
    let fb = pnl_fields(b);
    let end = Seq::<char>::empty();
    lemma_pnl_front(a);
    lemma_pnl_front(b);
    lemma_field_step(labels, fa, fb, 0, end, end);
    lemma_string_delimits(
        a.trade_date,
        b.trade_date,
        record_from(labels, fa, 1, end),
        record_from(labels, fb, 1, end),
    );
    lemma_field_step(labels, fa, fb, 1, end, end);
    lemma_string_delimits(
        a.group_by,
        b.group_by,
        record_from(labels, fa, 2, end),
        record_from(labels, fb, 2, end),
    );
    lemma_field_step(labels, fa, fb, 2, end, end);
    lemma_bool_delimits(
        a.cache_bypass,
        b.cache_bypass,
        record_from(labels, fa, 3, end),
        record_from(labels, fb, 3, end),
    );
}

/// A cached response belongs to the request that asks for it: requests with the same
/// payload compile to the same statement.
pub proof fn lemma_same_payload_same_statement(a: PivotRequestView, b: PivotRequestView)
    requires
        pivot_payload(a) == pivot_payload(b),
    ensures
        compile(plan_of(a)) == compile(plan_of(b)),
{
    lemma_pivot_payload_unique(a, b);
}

} // verus!
