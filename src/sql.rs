use vstd::prelude::*;
use vstd::string::*;
use crate::dialect::{Database, Dialect};
use crate::error::QueryError;
use crate::value::{IntoSqlValue, Value, ValueView, opt_view, values_view, lemma_values_view_add};

verus! {

/// What a fragment denotes: its text, its bound values in order, and how many
/// positional placeholders have been numbered in it so far.
pub ghost struct SqlView {
    pub text: Seq<char>,
    pub values: Seq<Option<ValueView>>,
    pub counter: nat,
}

/// A fragment of SQL: text paired with the ordered values bound to its placeholders.
#[derive(Debug)]
pub struct Sql<DB: Database> {
    pub text: String,
    pub values: Vec<Option<Value<DB>>>,
    pub placeholder_counter: u64,
}

impl<DB: Database> View for Sql<DB> {
    type V = SqlView;

    open spec fn view(&self) -> SqlView {
        SqlView { text: self.text@, values: values_view(self.values@), counter: self.placeholder_counter as nat }
    }
}

pub open spec fn is_digit(c: char) -> bool {
    '0' <= c && c <= '9'
}

pub open spec fn digit_char(n: nat) -> char {
    if n == 0 {
        '0'
    } else if n == 1 {
        '1'
    } else if n == 2 {
        '2'
    } else if n == 3 {
        '3'
    } else if n == 4 {
        '4'
    } else if n == 5 {
        '5'
    } else if n == 6 {
        '6'
    } else if n == 7 {
        '7'
    } else if n == 8 {
        '8'
    } else {
        '9'
    }
}

/// The decimal digits of `n`.
pub open spec fn dec(n: nat) -> Seq<char>
    decreases n,
{
    if n < 10 {
        seq![digit_char(n)]
    } else {
        dec(n / 10).push(digit_char(n % 10))
    }
}

/// The number that the next positional placeholder receives; it stays at the
/// largest counter value once that is reached.
pub open spec fn bump(c: nat) -> nat {
    if c < u64::MAX {
        c + 1
    } else {
        c
    }
}

/// Renumbering of the text from position `i` on: every placeholder marker (`$`
/// followed by one or more digits) is replaced by `$` and the next number after `c`.
/// `in_marker` holds while the digits of a replaced marker are being skipped.
/// Returns the new text and the last number given.
pub open spec fn renumber_from(t: Seq<char>, i: int, c: nat, in_marker: bool) -> (Seq<char>, nat)
    decreases t.len() - i,
{
    if i < 0 || i >= t.len() {
        (seq![], c)
    } else if in_marker && is_digit(t[i]) {
        renumber_from(t, i + 1, c, true)
    } else if t[i] == '$' && i + 1 < t.len() && is_digit(t[i + 1]) {
        let rest = renumber_from(t, i + 1, bump(c), true);
        (seq!['$'] + dec(bump(c)) + rest.0, rest.1)
    } else {
        let rest = renumber_from(t, i + 1, c, false);
        (seq![t[i]] + rest.0, rest.1)
    }
}

/// The text `t` with its placeholder markers numbered after `c`, and the last number given.
pub open spec fn renumber(t: Seq<char>, c: nat) -> (Seq<char>, nat) {
    renumber_from(t, 0, c, false)
}

/// Appending fragment `b` to fragment `a` under the dialect of `DB`: the texts and the
/// value lists are concatenated; under numbered placeholders the markers of `b` are
/// numbered on from the counter of `a`.
pub open spec fn cat<DB: Database>(a: SqlView, b: SqlView) -> SqlView {
    match DB::dialect_spec() {
        Dialect::MySql => SqlView { text: a.text + b.text, values: a.values + b.values, counter: a.counter },
        Dialect::Postgres => {
            let r = renumber(b.text, a.counter);
            SqlView { text: a.text + r.0, values: a.values + b.values, counter: r.1 }
        },
    }
}

/// A fragment of literal text with no values.
pub open spec fn raw_view(t: Seq<char>) -> SqlView {
    SqlView { text: t, values: seq![], counter: 0 }
}

/// The placeholder token that a dialect splices in for a bound value.
pub open spec fn placeholder_text(d: Dialect) -> Seq<char> {
    match d {
        Dialect::MySql => seq!['?'],
        Dialect::Postgres => seq!['$', '0'],
    }
}

/// The fragment for one value: `null` when absent, else a placeholder bound to it.
pub open spec fn value_view<DB: Database>(v: Option<ValueView>) -> SqlView {
    match v {
        None => raw_view("null"@),
        Some(_) => SqlView { text: placeholder_text(DB::dialect_spec()), values: seq![v], counter: 0 },
    }
}

/// The identifier `s` with each occurrence of the quote character `q` doubled.
pub open spec fn doubled(q: char, s: Seq<char>) -> Seq<char>
    decreases s.len(),
{
    if s.len() == 0 {
        seq![]
    } else {
        doubled(q, s.drop_last()) + (if s.last() == q {
            seq![q, q]
        } else {
            seq![s.last()]
        })
    }
}

/// The quote character of a dialect's identifiers.
pub open spec fn quote_char(d: Dialect) -> char {
    match d {
        Dialect::MySql => '`',
        Dialect::Postgres => '"',
    }
}

/// The identifier `s` quoted for dialect `d`.
pub open spec fn quoted(d: Dialect, s: Seq<char>) -> Seq<char> {
    seq![quote_char(d)] + doubled(quote_char(d), s) + seq![quote_char(d)]
}

/// The word `null` in any mix of ASCII case.
pub open spec fn is_null_word(s: Seq<char>) -> bool {
    &&& s.len() == 4
    &&& (s[0] == 'n' || s[0] == 'N')
    &&& (s[1] == 'u' || s[1] == 'U')
    &&& (s[2] == 'l' || s[2] == 'L')
    &&& (s[3] == 'l' || s[3] == 'L')
}

/// Relies on `String::push`: the character is added at the end.
#[verifier::external_body]
pub(crate) fn push_char(s: &mut String, c: char)
    ensures
        final(s)@ == old(s)@.push(c),
{
    s.push(c)
}

/// The characters of `s` in order.
pub(crate) fn chars_of(s: &str) -> (r: Vec<char>)
    ensures
        r@ == s@,
{
    let n = s.unicode_len();
    let mut out: Vec<char> = Vec::new();
    let mut i: usize = 0;
    while i < n
        invariant
            n == s@.len(),
            i <= n,
            out@ == s@.take(i as int),
        decreases n - i,
    {
        out.push(s.get_char(i));
        assert(out@ =~= s@.take(i + 1));
        i = i + 1;
    }
    assert(s@.take(n as int) =~= s@);
    out
}

fn digit(n: u64) -> (c: char)
    requires
        n < 10,
    ensures
        c == digit_char(n as nat),
{
    if n == 0 {
        '0'
    } else if n == 1 {
        '1'
    } else if n == 2 {
        '2'
    } else if n == 3 {
        '3'
    } else if n == 4 {
        '4'
    } else if n == 5 {
        '5'
    } else if n == 6 {
        '6'
    } else if n == 7 {
        '7'
    } else if n == 8 {
        '8'
    } else {
        '9'
    }
}

/// Writes the decimal digits of `n` at the end of `out`.
pub fn write_decimal(n: u64, out: &mut String)
    ensures
        final(out)@ == old(out)@ + dec(n as nat),
    decreases n,
{
    if n >= 10 {
        write_decimal(n / 10, out);
        push_char(out, digit(n % 10));
        assert(final(out)@ =~= old(out)@ + dec(n as nat));
    } else {
        push_char(out, digit(n));
        assert(final(out)@ =~= old(out)@ + dec(n as nat));
    }
}

/// The number of placeholder markers in the text from position `i` on.
pub open spec fn markers_from(t: Seq<char>, i: int, in_marker: bool) -> nat
    decreases t.len() - i,
{
    if i < 0 || i >= t.len() {
        0
    } else if in_marker && is_digit(t[i]) {
        markers_from(t, i + 1, true)
    } else if t[i] == '$' && i + 1 < t.len() && is_digit(t[i + 1]) {
        1 + markers_from(t, i + 1, true)
    } else {
        markers_from(t, i + 1, false)
    }
}

/// The number of placeholder markers (`$` and one or more digits) in `t`.
pub open spec fn marker_count(t: Seq<char>) -> nat {
    markers_from(t, 0, false)
}

proof fn lemma_renumber_from_counter(t: Seq<char>, i: int, c: nat, in_marker: bool)
    requires
        c + markers_from(t, i, in_marker) <= u64::MAX,
    ensures
        renumber_from(t, i, c, in_marker).1 == c + markers_from(t, i, in_marker),
    decreases t.len() - i,
{
    if i < 0 || i >= t.len() {
    } else if in_marker && is_digit(t[i]) {
        lemma_renumber_from_counter(t, i + 1, c, true);
    } else if t[i] == '$' && i + 1 < t.len() && is_digit(t[i + 1]) {
        lemma_renumber_from_counter(t, i + 1, c + 1, true);
    } else {
        lemma_renumber_from_counter(t, i + 1, c, false);
    }
}

/// Appending fragment `b` to fragment `a`: the values are concatenated in order. Under
/// numbered placeholders each marker of `b` is renumbered, in order, with the numbers
/// that follow `a`'s counter, and the counter grows by exactly the number of markers;
/// under the repeated placeholder token the texts are concatenated with no rewriting.
pub proof fn lemma_append_placeholders<DB: Database>(a: SqlView, b: SqlView)
    requires
        a.counter + marker_count(b.text) <= u64::MAX,
    ensures
        cat::<DB>(a, b).values == a.values + b.values,
        DB::dialect_spec() == Dialect::Postgres ==> cat::<DB>(a, b).text == a.text + renumber(b.text, a.counter).0
            && cat::<DB>(a, b).counter == a.counter + marker_count(b.text),
        DB::dialect_spec() == Dialect::MySql ==> cat::<DB>(a, b).text == a.text + b.text && cat::<DB>(a, b).counter
            == a.counter,
{
    lemma_renumber_from_counter(b.text, 0, a.counter, false);
}

/// The bound values of an append do not depend on the dialect, only its text does: the
/// same composition binds the same values, in the same order, under every dialect.
pub proof fn lemma_values_independent_of_dialect<A: Database, B: Database>(a: SqlView, b: SqlView)
    ensures
        cat::<A>(a, b).values == cat::<B>(a, b).values,
        cat::<A>(a, b).values.len() == a.values.len() + b.values.len(),
{
}

/// Successive appends number the placeholders without gaps: the markers of `c` are
/// numbered on from where those of `b` stopped.
pub proof fn lemma_append_chain_gap_free<DB: Database>(a: SqlView, b: SqlView, c: SqlView)
    requires
        DB::dialect_spec() == Dialect::Postgres,
        a.counter + marker_count(b.text) + marker_count(c.text) <= u64::MAX,
    ensures
        cat::<DB>(cat::<DB>(a, b), c).text == a.text + renumber(b.text, a.counter).0 + renumber(
            c.text,
            a.counter + marker_count(b.text),
        ).0,
        cat::<DB>(cat::<DB>(a, b), c).counter == a.counter + marker_count(b.text) + marker_count(c.text),
        cat::<DB>(cat::<DB>(a, b), c).values == a.values + b.values + c.values,
{
    lemma_append_placeholders::<DB>(a, b);
    lemma_append_placeholders::<DB>(cat::<DB>(a, b), c);
}

/// A bound value appended under numbered placeholders receives the number after the
/// counter: its `$0` token becomes `$n`.
pub proof fn lemma_value_numbered<DB: Database>(a: SqlView, v: ValueView)
    requires
        DB::dialect_spec() == Dialect::Postgres,
        a.counter < u64::MAX,
    ensures
        cat::<DB>(a, value_view::<DB>(Some(v))).text == a.text + seq!['$'] + dec(a.counter + 1),
        cat::<DB>(a, value_view::<DB>(Some(v))).counter == a.counter + 1,
        cat::<DB>(a, value_view::<DB>(Some(v))).values == a.values.push(Some(v)),
{
    let t = seq!['$', '0'];
    assert(renumber_from(t, 2, a.counter + 1, true) == (Seq::<char>::empty(), a.counter + 1));
    assert(renumber_from(t, 1, a.counter + 1, true) == (Seq::<char>::empty(), a.counter + 1));
    assert(renumber(t, a.counter).0 =~= seq!['$'] + dec(a.counter + 1));
    assert(a.text + (seq!['$'] + dec(a.counter + 1)) =~= a.text + seq!['$'] + dec(a.counter + 1));
    assert(a.values + seq![Some(v)] =~= a.values.push(Some(v)));
}

/// Appends `t` to `out` with its placeholder markers numbered on from `c`, and
/// returns the last number given.
pub fn append_renumbered(out: &mut String, t: &str, c: u64) -> (r: u64)
    ensures
        final(out)@ == old(out)@ + renumber(t@, c as nat).0,
        r as nat == renumber(t@, c as nat).1,
{
    let chars = chars_of(t);
    let n = chars.len();
    let mut i: usize = 0;
    let mut cnt: u64 = c;
    let mut in_marker = false;
    let ghost full = renumber(t@, c as nat);
    while i < n
        invariant
            chars@ == t@,
            n == chars@.len(),
            i <= n,
            out@ + renumber_from(t@, i as int, cnt as nat, in_marker).0 == old(out)@ + full.0,
            renumber_from(t@, i as int, cnt as nat, in_marker).1 == full.1,
        decreases n - i,
    {
        let ch = chars[i];
        let ghost rest = renumber_from(t@, i as int + 1, cnt as nat, in_marker);
        if in_marker && '0' <= ch && ch <= '9' {
            i = i + 1;
        } else if ch == '$' && i + 1 < n && '0' <= chars[i + 1] && chars[i + 1] <= '9' {
            let next: u64 = if cnt < u64::MAX {
                cnt + 1
            } else {
                cnt
            };
            let ghost before = out@;
            let ghost tail = renumber_from(t@, i as int + 1, next as nat, true);
            push_char(out, '$');
            write_decimal(next, out);
            assert(before + (seq!['$'] + dec(next as nat) + tail.0) =~= out@ + tail.0);
            cnt = next;
            in_marker = true;
            i = i + 1;
        } else {
            let ghost before = out@;
            push_char(out, ch);
            assert(before + (seq![ch] + rest.0) =~= out@ + rest.0);
            in_marker = false;
            i = i + 1;
        }
    }
    assert(out@ =~= old(out)@ + full.0);
    cnt
}

/// Quotes an identifier for dialect `DB`, doubling the quote character inside it.
pub fn quote_identifier<DB: Database>(name: &str) -> (r: String)
    ensures
        r@ == quoted(DB::dialect_spec(), name@),
{
    let q = match DB::dialect() {
        Dialect::MySql => '`',
        Dialect::Postgres => '"',
    };
    let chars = chars_of(name);
    let mut out = String::new();
    push_char(&mut out, q);
    let mut i: usize = 0;
    while i < chars.len()
        invariant
            chars@ == name@,
            i <= chars@.len(),
            q == quote_char(DB::dialect_spec()),
            out@ == seq![q] + doubled(q, name@.take(i as int)),
        decreases chars@.len() - i,
    {
        let ch = chars[i];
        assert(name@.take(i + 1).drop_last() =~= name@.take(i as int));
        if ch == q {
            push_char(&mut out, q);
            push_char(&mut out, q);
        } else {
            push_char(&mut out, ch);
        }
        assert(out@ =~= seq![q] + doubled(q, name@.take(i + 1)));
        i = i + 1;
    }
    push_char(&mut out, q);
    assert(name@.take(chars@.len() as int) =~= name@);
    assert(out@ =~= quoted(DB::dialect_spec(), name@));
    out
}

/// The placeholder token of dialect `DB`.
pub fn placeholder<DB: Database>() -> (r: &'static str)
    ensures
        r@ == placeholder_text(DB::dialect_spec()),
{
    proof {
        reveal_strlit("?");
        reveal_strlit("$0");
    }
    match DB::dialect() {
        Dialect::MySql => "?",
        Dialect::Postgres => "$0",
    }
}

impl<DB: Database> Sql<DB> {
    pub fn new(text: String, values: Vec<Option<Value<DB>>>) -> (r: Self)
        ensures
            r@ == (SqlView { text: text@, values: values_view(values@), counter: 0 }),
    {
        Sql { text, values, placeholder_counter: 0 }
    }

    /// A fragment of literal text. The caller answers for it: nothing is escaped.
    pub fn raw(text: &str) -> (r: Self)
        ensures
            r@ == raw_view(text@),
    {
        let values: Vec<Option<Value<DB>>> = Vec::new();
        assert(values_view(values@) =~= seq![]);
        Sql { text: String::from_str(text), values, placeholder_counter: 0 }
    }

    /// The fragment for one value: `null` when absent, else a placeholder bound to it.
    pub fn from_value(value: Option<Value<DB>>) -> (r: Self)
        ensures
            r@ == value_view::<DB>(opt_view(value)),
    {
        match value {
            None => {
                proof {
                    reveal_strlit("null");
                }
                Sql::raw("null")
            },
            Some(v) => {
                let mut values = Vec::new();
                values.push(Some(v));
                assert(values_view(values@) =~= seq![opt_view(Some(v))]);
                Sql { text: String::from_str(placeholder::<DB>()), values, placeholder_counter: 0 }
            },
        }
    }

    /// The fragment for a plain value, converted for dialect `DB`.
    pub fn value<V: IntoSqlValue<DB>>(value: V) -> (r: Self)
        ensures
            r@ == value_view::<DB>(value.sql_value_view()),
    {
        let x = value.into_sql_value();
        Sql::from_value(x)
    }

    /// Whether the fragment stands for SQL NULL: its text is exactly the word `null` in
    /// any ASCII case, and it binds no values.
    pub fn is_null(expr: &Sql<DB>) -> (r: bool)
        ensures
            r == (is_null_word(expr.text@) && expr.values@.len() == 0),
    {
        let c = chars_of(expr.text.as_str());
        if c.len() != 4 || expr.values.len() != 0 {
            return false;
        }
        (c[0] == 'n' || c[0] == 'N') && (c[1] == 'u' || c[1] == 'U') && (c[2] == 'l' || c[2] == 'L')
            && (c[3] == 'l' || c[3] == 'L')
    }

    pub fn query(&self) -> (r: &str)
        ensures
            r@ == self.text@,
    {
        self.text.as_str()
    }

    pub fn params(&self) -> (r: &[Option<Value<DB>>])
        ensures
            r@ == self.values@,
    {
        self.values.as_slice()
    }

    /// Appends another fragment: texts and values are concatenated, and under numbered
    /// placeholders the markers of `other` are numbered on from this fragment's counter.
    pub fn append(self, other: Sql<DB>) -> (r: Self)
        ensures
            r@ == cat::<DB>(self@, other@),
    {
        let Sql { text, values, placeholder_counter } = self;
        let Sql { text: other_text, values: other_values, placeholder_counter: _ } = other;
        let mut text = text;
        let mut values = values;
        let mut other_values = other_values;
        let counter = match DB::dialect() {
            Dialect::MySql => {
                text.append(other_text.as_str());
                placeholder_counter
            },
            Dialect::Postgres => append_renumbered(&mut text, other_text.as_str(), placeholder_counter),
        };
        let ghost left = values@;
        let ghost right = other_values@;
        values.append(&mut other_values);
        proof {
            lemma_values_view_add(left, right);
        }
        Sql { text, values, placeholder_counter: counter }
    }

    /// Appends literal text, which binds no values. The caller answers for it.
    pub fn raw_append(self, text: &str) -> (r: Self)
        ensures
            r@ == cat::<DB>(self@, raw_view(text@)),
    {
        self.append(Sql::raw(text))
    }

    /// Moves the fragment into its one-shot executable form.
    pub fn freeze(self) -> (r: FrozenSql<DB>)
        ensures
            r.text@ == self.text@,
            r.values is Some,
            r.values->0@ == self.values@,
    {
        FrozenSql { text: self.text, values: Some(self.values) }
    }
}

impl<DB: Database> Clone for Sql<DB> {
    fn clone(&self) -> (r: Self)
        ensures
            r@ == self@,
    {
        Sql { text: self.text.clone(), values: clone_values(&self.values), placeholder_counter: self.placeholder_counter }
    }
}

pub(crate) fn clone_value<DB: Database>(v: &Option<Value<DB>>) -> (r: Option<Value<DB>>)
    ensures
        opt_view(r) == opt_view(*v),
{
    match v {
        Some(x) => Some(x.clone()),
        None => None,
    }
}

/// The views of a list of fragments.
pub open spec fn sql_views<DB: Database>(s: Seq<Sql<DB>>) -> Seq<SqlView> {
    s.map_values(|x: Sql<DB>| x@)
}

/// `start` followed by the items, with the literal `sep` between consecutive items.
pub open spec fn sep_fold<DB: Database>(start: SqlView, items: Seq<SqlView>, sep: Seq<char>) -> SqlView
    decreases items.len(),
{
    if items.len() == 0 {
        start
    } else {
        let prev = sep_fold::<DB>(start, items.drop_last(), sep);
        cat::<DB>(if items.len() > 1 { cat::<DB>(prev, raw_view(sep)) } else { prev }, items.last())
    }
}

/// Appends each item to `start` in order, with `sep` between consecutive items.
pub fn append_separated<DB: Database>(start: Sql<DB>, items: Vec<Sql<DB>>, sep: &str) -> (r: Sql<DB>)
    ensures
        r@ == sep_fold::<DB>(start@, sql_views(items@), sep@),
{
    let ghost all = sql_views(items@);
    let ghost s0 = start@;
    let n = items.len();
    let mut rest = items;
    let mut sql = start;
    let mut i: usize = 0;
    assert(all.take(0) =~= seq![]);
    assert(sql_views(rest@) =~= all.skip(0));
    while rest.len() > 0
        invariant
            all.len() == n,
            i + rest@.len() == n,
            sql_views(rest@) == all.skip(i as int),
            sql@ == sep_fold::<DB>(s0, all.take(i as int), sep@),
        decreases rest@.len(),
    {
        let ghost before = rest@;
        let item = rest.remove(0);
        assert(item@ == sql_views(before)[0]);
        assert(sql_views(rest@) =~= sql_views(before).skip(1));
        if i > 0 {
            sql = sql.raw_append(sep);
        }
        sql = sql.append(item);
        assert(all.take(i + 1).drop_last() =~= all.take(i as int));
        assert(all.skip(i as int)[0] == all[i as int]);
        assert(all.skip(i as int).skip(1) =~= all.skip(i + 1));
        i = i + 1;
    }
    assert(all.take(n as int) =~= all);
    sql
}

/// A fragment prepared for one execution: its values are handed out once.
#[derive(Debug)]
pub struct FrozenSql<DB: Database> {
    pub text: String,
    pub values: Option<Vec<Option<Value<DB>>>>,
}

impl<DB: Database> FrozenSql<DB> {
    pub fn query(&self) -> (r: &str)
        ensures
            r@ == self.text@,
    {
        self.text.as_str()
    }

    pub fn params(&self) -> (r: Option<&[Option<Value<DB>>]>)
        ensures
            self.values is None ==> r is None,
            self.values is Some ==> r is Some && r->0@ == self.values->0@,
    {
        match &self.values {
            Some(v) => Some(v.as_slice()),
            None => None,
        }
    }

    /// Hands out the values for execution. A second call finds them consumed and fails
    /// with a reuse error, leaving the fragment as it is.
    pub fn take_values(&mut self) -> (r: Result<Vec<Option<Value<DB>>>, QueryError>)
        ensures
            old(self).values is Some ==> r is Ok && r->Ok_0@ == old(self).values->0@
                && final(self).values is None && final(self).text@ == old(self).text@,
            old(self).values is None ==> r is Err && *final(self) == *old(self),
    {
        match self.values.take() {
            Some(v) => Ok(v),
            None => Err(QueryError::new()),
        }
    }
}

/// The values of `v`, each cloned.
pub(crate) fn clone_values<DB: Database>(v: &Vec<Option<Value<DB>>>) -> (r: Vec<Option<Value<DB>>>)
    ensures
        values_view(r@) == values_view(v@),
{
    let mut values = Vec::new();
    let mut i: usize = 0;
    while i < v.len()
        invariant
            i <= v@.len(),
            values_view(values@) == values_view(v@.take(i as int)),
        decreases v@.len() - i,
    {
        let ghost before = values@;
        let x = clone_value(&v[i]);
        values.push(x);
        assert(values@ =~= before.push(x));
        assert(values_view(before.push(x)) =~= values_view(before).push(opt_view(x)));
        assert(v@.take(i + 1) =~= v@.take(i as int).push(v@[i as int]));
        assert(values_view(v@.take(i as int).push(v@[i as int])) =~= values_view(v@.take(i as int)).push(
            opt_view(v@[i as int]),
        ));
        i = i + 1;
    }
    assert(v@.take(i as int) =~= v@);
    values
}

impl<DB: Database> Clone for FrozenSql<DB> {
    /// A copy that holds the values that are not yet consumed.
    fn clone(&self) -> (r: Self)
        ensures
            r.text@ == self.text@,
            r.values is Some <==> self.values is Some,
            self.values is Some ==> values_view(r.values->0@) == values_view(self.values->0@),
    {
        let values = match &self.values {
            Some(v) => Some(clone_values(v)),
            None => None,
        };
        FrozenSql { text: self.text.clone(), values }
    }
}

/// Conversion of literal text into a fragment that binds no values.
pub trait IntoRawSql<DB: Database>: Sized {
    spec fn raw_text(&self) -> Seq<char>;

    fn into_raw_sql(self) -> (r: Sql<DB>)
        ensures
            r@ == raw_view(self.raw_text()),
    ;
}

impl<'a, DB: Database> IntoRawSql<DB> for &'a str {
    open spec fn raw_text(&self) -> Seq<char> {
        self@
    }

    fn into_raw_sql(self) -> (r: Sql<DB>) {
        Sql::raw(self)
    }
}

impl<DB: Database> IntoRawSql<DB> for String {
    open spec fn raw_text(&self) -> Seq<char> {
        self@
    }

    fn into_raw_sql(self) -> (r: Sql<DB>) {
        Sql::raw(self.as_str())
    }
}

impl<DB: Database> IntoRawSql<DB> for char {
    open spec fn raw_text(&self) -> Seq<char> {
        seq![*self]
    }

    fn into_raw_sql(self) -> (r: Sql<DB>) {
        let mut s = String::new();
        push_char(&mut s, self);
        assert(s@ =~= seq![self]);
        Sql::raw(s.as_str())
    }
}

} // verus!
