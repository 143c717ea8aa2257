//! The preferences editor: one row per preference, ordered by name, each
//! with the editor that suits its value, and the batch of changes that a
//! frame's edits add up to.

use vstd::prelude::*;

verus! {

/// The value of a preference.
#[derive(Clone, Debug, PartialEq, Eq)]
pub enum PrefValue {
    /// A floating-point number, held as its IEEE 754 bit pattern.  The editor
    /// carries it and never computes with it.
    Float(u64),
    /// A whole number.
    Int(i64),
    /// A text.
    Str(String),
    /// A switch.
    Bool(bool),
    /// A list of values.  The editor shows such a preference by name only,
    /// so the elements are not held.
    Array,
    /// No value.
    Missing,
}

/// The mathematical content of a [`PrefValue`].
pub enum PrefValueView {
    Float(u64),
    Int(i64),
    Str(Seq<char>),
    Bool(bool),
    Array,
    Missing,
}

impl View for PrefValue {
    type V = PrefValueView;

    open spec fn view(&self) -> PrefValueView {
        match *self {
            PrefValue::Float(bits) => PrefValueView::Float(bits),
            PrefValue::Int(n) => PrefValueView::Int(n),
            PrefValue::Str(s) => PrefValueView::Str(s@),
            PrefValue::Bool(b) => PrefValueView::Bool(b),
            PrefValue::Array => PrefValueView::Array,
            PrefValue::Missing => PrefValueView::Missing,
        }
    }
}

/// The widget with which a row edits its value.
#[derive(Clone, Copy, Debug, PartialEq, Eq, Structural)]
pub enum Editor {
    /// A text field that takes a number.
    NumberField,
    /// A text field that takes any text.
    TextField,
    /// A checkbox.
    Checkbox,
    /// None: the row shows the name only.
    ReadOnly,
}

/// The editor of a value: a number field for numbers, a text field for
/// texts, a checkbox for switches, none for lists and missing values.
pub open spec fn editor_of(value: PrefValueView) -> Editor {
    match value {
        PrefValueView::Float(_) => Editor::NumberField,
        PrefValueView::Int(_) => Editor::NumberField,
        PrefValueView::Str(_) => Editor::TextField,
        PrefValueView::Bool(_) => Editor::Checkbox,
        PrefValueView::Array => Editor::ReadOnly,
        PrefValueView::Missing => Editor::ReadOnly,
    }
}

/// What the user has put into a row's editor.
#[derive(Clone, Debug, PartialEq, Eq)]
pub enum PrefInput {
    /// The new content of a text field or of the number field of a whole
    /// number.
    Text(String),
    /// The number that the new content of the number field of a
    /// floating-point preference stands for, as its bit pattern.  Content
    /// that stands for no number is no input.
    Float(u64),
    /// The new state of a checkbox.
    Toggle(bool),
}

/// The mathematical content of a [`PrefInput`].
pub enum PrefInputView {
    Text(Seq<char>),
    Float(u64),
    Toggle(bool),
}

impl View for PrefInput {
    type V = PrefInputView;

    open spec fn view(&self) -> PrefInputView {
        match *self {
            PrefInput::Text(text) => PrefInputView::Text(text@),
            PrefInput::Float(bits) => PrefInputView::Float(bits),
            PrefInput::Toggle(on) => PrefInputView::Toggle(on),
        }
    }
}

/// The value of a decimal digit.
pub open spec fn digit_value(c: char) -> Option<int> {
    if '0' <= c && c <= '9' {
        Some(c as int - '0' as int)
    } else {
        None
    }
}

/// The number that a run of decimal digits stands for, `None` if a
/// character of the run is no digit.
pub open spec fn digits_value(digits: Seq<char>) -> Option<int>
    decreases digits.len(),
{
    if digits.len() == 0 {
        Some(0)
    } else {
        match (digits_value(digits.drop_last()), digit_value(digits.last())) {
            (Some(high), Some(low)) => Some(10 * high + low),
            _ => None,
        }
    }
}

/// The whole number that a text stands for: an optional sign, `+` or `-`,
/// then one or more decimal digits and nothing else, the number within the
/// range of `i64`.  `None` for every other text.
pub open spec fn parsed_int(text: Seq<char>) -> Option<i64> {
    let signed = text.len() > 0 && (text[0] == '-' || text[0] == '+');
    let digits = if signed {
        text.drop_first()
    } else {
        text
    };
    if digits.len() == 0 {
        None
    } else {
        match digits_value(digits) {
            Some(magnitude) => {
                let number = if signed && text[0] == '-' {
                    -magnitude
                } else {
                    magnitude
                };
                if i64::MIN <= number && number <= i64::MAX {
                    Some(number as i64)
                } else {
                    None
                }
            },
            None => None,
        }
    }
}

/// `str::parse::<i64>`, its error dropped: the number that the text stands
/// for in decimal notation.  The text may begin with one sign and must
/// otherwise consist of digits, at least one; a number outside the range of
/// `i64` is refused like any other text.
#[verifier::external_body]
fn parse_int(text: &str) -> (number: Option<i64>)
    ensures
        number == parsed_int(text@),
{
    text.parse::<i64>().ok()
}

/// The value that a row takes when the user has put `input` into its
/// editor, `None` if the input changes nothing.
///
/// A number field takes over a number: for a floating-point preference the
/// number that the embedder has read, for a whole number the number that the
/// field's text stands for, if it stands for one.  A text field takes over
/// its text, a checkbox its state.  A row without an editor takes nothing,
/// and no row takes input that is not of its editor.
pub open spec fn edited_value(current: PrefValueView, input: PrefInputView) -> Option<
    PrefValueView,
> {
    match (current, input) {
        (PrefValueView::Float(_), PrefInputView::Float(bits)) => Some(PrefValueView::Float(bits)),
        (PrefValueView::Int(_), PrefInputView::Text(text)) => match parsed_int(text) {
            Some(number) => Some(PrefValueView::Int(number)),
            None => None,
        },
        (PrefValueView::Str(_), PrefInputView::Text(text)) => Some(PrefValueView::Str(text)),
        (PrefValueView::Bool(_), PrefInputView::Toggle(on)) => Some(PrefValueView::Bool(on)),
        _ => None,
    }
}

impl PrefValue {
    /// The widget with which a row edits this value.
    pub fn editor(&self) -> (editor: Editor)
        ensures
            editor == editor_of(self@),
    {
        match self {
            PrefValue::Float(_) | PrefValue::Int(_) => Editor::NumberField,
            PrefValue::Str(_) => Editor::TextField,
            PrefValue::Bool(_) => Editor::Checkbox,
            PrefValue::Array | PrefValue::Missing => Editor::ReadOnly,
        }
    }

    /// The value that a row with this value takes when the user has put
    /// `input` into its editor, `None` if the input changes nothing.
    pub fn edited(&self, input: &PrefInput) -> (value: Option<PrefValue>)
        ensures
            match value {
                Some(v) => edited_value(self@, input@) == Some(v@),
                None => edited_value(self@, input@).is_none(),
            },
    {
        match (self, input) {
            (PrefValue::Float(_), PrefInput::Float(bits)) => Some(PrefValue::Float(*bits)),
            (PrefValue::Int(_), PrefInput::Text(text)) => match parse_int(text.as_str()) {
                Some(number) => Some(PrefValue::Int(number)),
                None => None,
            },
            (PrefValue::Str(_), PrefInput::Text(text)) => Some(PrefValue::Str(text.clone())),
            (PrefValue::Bool(_), PrefInput::Toggle(on)) => Some(PrefValue::Bool(*on)),
            _ => None,
        }
    }
}

/// One preference: its name and its value.
#[derive(Clone, Debug, PartialEq, Eq)]
pub struct PrefRow {
    pub key: String,
    pub value: PrefValue,
}

/// The mathematical content of a [`PrefRow`].
pub struct PrefRowView {
    pub key: Seq<char>,
    pub value: PrefValueView,
}

impl View for PrefRow {
    type V = PrefRowView;

    open spec fn view(&self) -> PrefRowView {
        PrefRowView { key: self.key@, value: self.value@ }
    }
}

/// The rows of a list, each by its content.
pub open spec fn rows_view(rows: Seq<PrefRow>) -> Seq<PrefRowView> {
    rows.map_values(|row: PrefRow| row@)
}

/// Whether `a` comes before `b` in the order of the preferences page:
/// character by character, a smaller code point first, and a text before
/// every text that it begins.
pub open spec fn text_before(a: Seq<char>, b: Seq<char>) -> bool
    decreases a.len(),
{
    if b.len() == 0 {
        false
    } else if a.len() == 0 {
        true
    } else if a[0] != b[0] {
        (a[0] as u32) < (b[0] as u32)
    } else {
        text_before(a.drop_first(), b.drop_first())
    }
}

/// `str`'s `<`: whether `a` comes before `b` when the two are compared
/// lexicographically by their bytes, which is the order of their code
/// points.
#[verifier::external_body]
fn comes_before(a: &str, b: &str) -> (before: bool)
    ensures
        before == text_before(a@, b@),
{
    a < b
}

/// Whether the rows are in the order of their names.
pub open spec fn in_key_order(rows: Seq<PrefRowView>) -> bool {
    forall|i: int, j: int|
        0 <= i < j < rows.len() ==> !text_before(#[trigger] rows[j].key, #[trigger] rows[i].key)
}

/// Where a row named `key` goes into rows that are in order: before the
/// first row whose name does not come before `key`, at the end if there is
/// none.
pub open spec fn insert_position(rows: Seq<PrefRowView>, key: Seq<char>) -> int
    decreases rows.len(),
{
    if rows.len() == 0 || !text_before(rows[0].key, key) {
        0
    } else {
        1 + insert_position(rows.drop_first(), key)
    }
}

/// The rows in the order of their names.  Rows of one name keep the order
/// in which they came.
pub open spec fn sorted_rows(rows: Seq<PrefRowView>) -> Seq<PrefRowView>
    decreases rows.len(),
{
    if rows.len() == 0 {
        rows
    } else {
        let rest = sorted_rows(rows.drop_first());
        rest.insert(insert_position(rest, rows[0].key), rows[0])
    }
}

/// No text comes before itself.
pub proof fn lemma_text_before_irreflexive(a: Seq<char>)
    ensures
        !text_before(a, a),
    decreases a.len(),
{
    if a.len() > 0 {
        lemma_text_before_irreflexive(a.drop_first());
    }
}

/// What comes before a text comes before all that the text comes before.
pub proof fn lemma_text_before_transitive(a: Seq<char>, b: Seq<char>, c: Seq<char>)
    requires
        text_before(a, b),
        text_before(b, c),
    ensures
        text_before(a, c),
    decreases a.len(),
{
    if a.len() > 0 && a[0] == b[0] && b[0] == c[0] {
        lemma_text_before_transitive(a.drop_first(), b.drop_first(), c.drop_first());
    }
}

/// Of two different texts, one comes before the other.
pub proof fn lemma_text_before_total(a: Seq<char>, b: Seq<char>)
    ensures
        a == b || text_before(a, b) || text_before(b, a),
    decreases a.len(),
{
    if a.len() > 0 && b.len() > 0 && a[0] == b[0] {
        lemma_text_before_total(a.drop_first(), b.drop_first());
        if a.drop_first() == b.drop_first() {
            assert(a =~= seq![a[0]] + a.drop_first());
            assert(b =~= seq![b[0]] + b.drop_first());
        }
    } else if a.len() == 0 && b.len() == 0 {
        assert(a =~= b);
    } else if a.len() > 0 && b.len() > 0 {
        vstd::utf8::char_u32_cast(a[0], a[0] as u32);
        vstd::utf8::char_u32_cast(b[0], b[0] as u32);
    }
}

/// The position at which a row goes in lies within the rows, the rows before
/// it come before the new row's name, and the row at it does not.
pub proof fn lemma_insert_position(rows: Seq<PrefRowView>, key: Seq<char>)
    ensures
        0 <= insert_position(rows, key) <= rows.len(),
        forall|k: int|
            0 <= k < insert_position(rows, key) ==> text_before(#[trigger] rows[k].key, key),
        insert_position(rows, key) < rows.len() ==> !text_before(
            rows[insert_position(rows, key)].key,
            key,
        ),
    decreases rows.len(),
{
    if rows.len() > 0 && text_before(rows[0].key, key) {
        let rest = rows.drop_first();
        lemma_insert_position(rest, key);
        assert forall|k: int| 0 <= k < insert_position(rows, key) implies text_before(
            #[trigger] rows[k].key,
            key,
        ) by {
            if k > 0 {
                assert(rows[k] == rest[k - 1]);
            }
        }
    }
}

/// A row that goes in at its position leaves rows that were in order in
/// order.
pub proof fn lemma_insert_keeps_order(rows: Seq<PrefRowView>, row: PrefRowView)
    requires
        in_key_order(rows),
    ensures
        in_key_order(rows.insert(insert_position(rows, row.key), row)),
{
    let p = insert_position(rows, row.key);
    let out = rows.insert(p, row);
    lemma_insert_position(rows, row.key);
    assert forall|i: int, j: int| 0 <= i < j < out.len() implies !text_before(
        #[trigger] out[j].key,
        #[trigger] out[i].key,
    ) by {
        if j == p {
            // the rows before the new one come before its name
            assert(out[i] == rows[i]);
            if text_before(row.key, rows[i].key) {
                lemma_text_before_transitive(row.key, rows[i].key, row.key);
                lemma_text_before_irreflexive(row.key);
            }
        } else if i == p {
            // the rows behind the new one do not come before its name
            assert(out[j] == rows[j - 1]);
            if text_before(rows[j - 1].key, row.key) {
                if j - 1 > p {
                    assert(!text_before(rows[j - 1].key, rows[p].key));
                    lemma_text_before_total(rows[j - 1].key, rows[p].key);
                    if rows[j - 1].key != rows[p].key {
                        lemma_text_before_transitive(rows[p].key, rows[j - 1].key, row.key);
                    }
                }
            }
        } else {
            let i0 = if i < p { i } else { i - 1 };
            let j0 = if j < p { j } else { j - 1 };
            assert(out[i] == rows[i0]);
            assert(out[j] == rows[j0]);
        }
    }
}

/// Putting a row into a sequence adds it to what the sequence holds.
pub proof fn lemma_insert_multiset(rows: Seq<PrefRowView>, at: int, row: PrefRowView)
    requires
        0 <= at <= rows.len(),
    ensures
        rows.insert(at, row).to_multiset() == rows.to_multiset().insert(row),
{
    let out = rows.insert(at, row);
    vstd::seq_lib::to_multiset_remove(out, at);
    assert(out.remove(at) =~= rows);
    assert(out[at] == row);
    out.to_multiset_ensures();
    assert(out.contains(row));
    assert(out.to_multiset() =~= rows.to_multiset().insert(row));
}

/// The sorted rows are in the order of their names and are the rows that
/// were given, each as often as it was given.
pub proof fn law_sorted_rows(rows: Seq<PrefRowView>)
    ensures
        in_key_order(sorted_rows(rows)),
        sorted_rows(rows).to_multiset() == rows.to_multiset(),
        sorted_rows(rows).len() == rows.len(),
    decreases rows.len(),
{
    if rows.len() > 0 {
        let rest = rows.drop_first();
        law_sorted_rows(rest);
        let sorted = sorted_rows(rest);
        lemma_insert_position(sorted, rows[0].key);
        lemma_insert_keeps_order(sorted, rows[0]);
        lemma_insert_multiset(sorted, insert_position(sorted, rows[0].key), rows[0]);
        rest.to_multiset_ensures();
        assert(rows =~= seq![rows[0]] + rest);
        vstd::seq_lib::lemma_seq_union_to_multiset_commutative(seq![rows[0]], rest);
        assert(rest + seq![rows[0]] =~= rest.push(rows[0]));
    } else {
        assert(sorted_rows(rows) =~= rows);
    }
}

/// The position at which a row named `key` goes into `rows`.
fn find_insert_position(rows: &Vec<PrefRow>, key: &str) -> (at: usize)
    ensures
        at == insert_position(rows_view(rows@), key@),
        at <= rows.len(),
{
    let ghost views = rows_view(rows@);
    let mut at: usize = 0;
    proof {
        assert(views.skip(0) =~= views);
    }
    while at < rows.len()
        invariant
            at <= rows.len(),
            views == rows_view(rows@),
            insert_position(views, key@) == at + insert_position(views.skip(at as int), key@),
        decreases rows.len() - at,
    {
        proof {
            assert(views.skip(at as int)[0] == rows@[at as int]@);
            assert(views.skip(at as int).drop_first() =~= views.skip(at + 1));
        }
        if !comes_before(rows[at].key.as_str(), key) {
            return at;
        }
        at += 1;
    }
    at
}

/// Puts the rows into the order of their names, for the preferences page to
/// list them.  Rows of one name keep the order in which they came.
pub fn sort_prefs(rows: Vec<PrefRow>) -> (sorted: Vec<PrefRow>)
    ensures
        rows_view(sorted@) == sorted_rows(rows_view(rows@)),
        in_key_order(rows_view(sorted@)),
        rows_view(sorted@).to_multiset() == rows_view(rows@).to_multiset(),
{
    let ghost all = rows_view(rows@);
    let mut rest = rows;
    let mut sorted: Vec<PrefRow> = Vec::new();
    proof {
        assert(all.skip(all.len() as int) =~= Seq::<PrefRowView>::empty());
        assert(rows_view(sorted@) =~= sorted_rows(all.skip(all.len() as int)));
    }
    while rest.len() > 0
        invariant
            rest@.len() <= all.len(),
            rows_view(rest@) == all.take(rest@.len() as int),
            rows_view(sorted@) == sorted_rows(all.skip(rest@.len() as int)),
        decreases rest.len(),
    {
        let ghost n = rest@.len() as int;
        let ghost sorted_before = rows_view(sorted@);
        let row = rest.pop().unwrap();
        proof {
            assert(row@ == all.take(n)[n - 1]);
            assert(rows_view(rest@) =~= all.take(n - 1));
            assert(all.skip(n - 1)[0] == row@);
            assert(all.skip(n - 1).drop_first() =~= all.skip(n));
        }
        let at = find_insert_position(&sorted, row.key.as_str());
        let ghost shown = row@;
        sorted.insert(at, row);
        proof {
            assert(rows_view(sorted@) =~= sorted_before.insert(at as int, shown));
        }
    }
    proof {
        assert(all.skip(0) =~= all);
        law_sorted_rows(all);
    }
    sorted
}

/// What a list of named values says when a later entry overrides an earlier
/// one of the same name.
pub open spec fn entries_map(entries: Seq<PrefRowView>) -> Map<Seq<char>, PrefValueView>
    decreases entries.len(),
{
    if entries.len() == 0 {
        Map::empty()
    } else {
        entries_map(entries.drop_last()).insert(entries.last().key, entries.last().value)
    }
}

/// Whether no two entries have the same name.
pub open spec fn distinct_keys(entries: Seq<PrefRowView>) -> bool {
    forall|i: int, j: int|
        0 <= i < j < entries.len() ==> (#[trigger] entries[i]).key != (#[trigger] entries[j]).key
}

/// Entries with no name twice have no name twice when the last is left off.
pub proof fn lemma_distinct_keys_drop_last(entries: Seq<PrefRowView>)
    requires
        entries.len() > 0,
        distinct_keys(entries),
    ensures
        distinct_keys(entries.drop_last()),
{
    let front = entries.drop_last();
    assert forall|i: int, j: int| 0 <= i < j < front.len() implies (#[trigger] front[i]).key != (
    #[trigger] front[j]).key by {
        assert(entries[i].key != entries[j].key);
    }
}

/// The names that a list of entries speaks of are the names of its entries,
/// and where no name occurs twice each entry's value is the value of its
/// name.
pub proof fn lemma_entries_map(entries: Seq<PrefRowView>)
    ensures
        forall|key: Seq<char>| #[trigger]
            entries_map(entries).dom().contains(key) <==> exists|i: int|
                0 <= i < entries.len() && (#[trigger] entries[i]).key == key,
        distinct_keys(entries) ==> forall|i: int|
            0 <= i < entries.len() ==> entries_map(entries)[(#[trigger] entries[i]).key]
                == entries[i].value,
        entries_map(entries).dom().finite(),
        distinct_keys(entries) ==> entries_map(entries).dom().len() == entries.len(),
    decreases entries.len(),
{
    if entries.len() > 0 {
        let front = entries.drop_last();
        let last = entries.last();
        lemma_entries_map(front);
        assert forall|key: Seq<char>| #[trigger]
            entries_map(entries).dom().contains(key) <==> exists|i: int|
                0 <= i < entries.len() && (#[trigger] entries[i]).key == key by {
            if entries_map(entries).dom().contains(key) {
                if key == last.key {
                    assert(entries[entries.len() - 1].key == key);
                } else {
                    assert(entries_map(front).dom().contains(key));
                    let i = choose|i: int| 0 <= i < front.len() && (#[trigger] front[i]).key == key;
                    assert(entries[i].key == key);
                }
            }
            if exists|i: int| 0 <= i < entries.len() && (#[trigger] entries[i]).key == key {
                let i = choose|i: int| 0 <= i < entries.len() && (#[trigger] entries[i]).key == key;
                if i < front.len() {
                    assert(front[i].key == key);
                }
            }
        }
        if distinct_keys(entries) {
            lemma_distinct_keys_drop_last(entries);
            assert forall|i: int| 0 <= i < entries.len() implies entries_map(entries)[(
            #[trigger] entries[i]).key] == entries[i].value by {
                if i < front.len() {
                    assert(entries[i].key != entries[entries.len() - 1].key);
                    assert(front[i] == entries[i]);
                }
            }
            if entries_map(front).dom().contains(last.key) {
                let i = choose|i: int| 0 <= i < front.len() && (#[trigger] front[i]).key == last.key;
                assert(entries[i].key != entries[entries.len() - 1].key);
            }
        }
    }
}

/// Giving an entry a new value says of its name what the new value says, as
/// long as no name occurs twice.
pub proof fn lemma_entries_map_update(entries: Seq<PrefRowView>, at: int, value: PrefValueView)
    requires
        0 <= at < entries.len(),
        distinct_keys(entries),
    ensures
        entries_map(entries.update(at, PrefRowView { key: entries[at].key, value }))
            == entries_map(entries).insert(entries[at].key, value),
        distinct_keys(entries.update(at, PrefRowView { key: entries[at].key, value })),
    decreases entries.len(),
{
    let key = entries[at].key;
    let updated = entries.update(at, PrefRowView { key, value });
    let front = entries.drop_last();
    assert forall|i: int, j: int| 0 <= i < j < updated.len() implies (#[trigger] updated[i]).key
        != (#[trigger] updated[j]).key by {
        assert(entries[i].key != entries[j].key);
    }
    if at == entries.len() - 1 {
        assert(updated.drop_last() =~= front);
        assert(entries_map(updated) =~= entries_map(entries).insert(key, value));
    } else {
        lemma_distinct_keys_drop_last(entries);
        lemma_entries_map_update(front, at, value);
        assert(updated.drop_last() =~= front.update(at, PrefRowView { key, value }));
        assert(updated.last() == entries.last());
        assert(entries[at].key != entries[entries.len() - 1].key);
        assert(entries_map(updated) =~= entries_map(entries).insert(key, value));
    }
}

/// The changes that the edits of one frame add up to: for each preference
/// that was edited, the value that it is to take.
///
/// A preference that was edited more than once takes the value of its last
/// edit.
pub struct PrefEdits {
    entries: Vec<PrefRow>,
}

impl View for PrefEdits {
    type V = Map<Seq<char>, PrefValueView>;

    closed spec fn view(&self) -> Map<Seq<char>, PrefValueView> {
        entries_map(rows_view(self.entries@))
    }
}

impl PrefEdits {
    #[verifier::type_invariant]
    spec fn well_formed(&self) -> bool {
        distinct_keys(rows_view(self.entries@))
    }

    /// No changes.
    pub fn new() -> (edits: PrefEdits)
        ensures
            edits@ == Map::<Seq<char>, PrefValueView>::empty(),
    {
        PrefEdits { entries: Vec::new() }
    }

    /// The index of the entry for `key`, if there is one.
    fn position(&self, key: &str) -> (found: Option<usize>)
        ensures
            match found {
                Some(i) => i < self.entries.len() && self.entries@[i as int].key@ == key@,
                None => !self@.dom().contains(key@),
            },
    {
        let ghost views = rows_view(self.entries@);
        let mut i: usize = 0;
        while i < self.entries.len()
            invariant
                i <= self.entries.len(),
                views == rows_view(self.entries@),
                forall|j: int| 0 <= j < i ==> (#[trigger] views[j]).key != key@,
            decreases self.entries.len() - i,
        {
            assert(views[i as int] == self.entries@[i as int]@);
            if self.entries[i].key.as_str().eq(key) {
                return Some(i);
            }
            i += 1;
        }
        proof {
            lemma_entries_map(views);
        }
        None
    }

    /// Records that the preference `key` is to take `value`, in place of
    /// what an earlier edit may have recorded for it.
    pub fn insert(&mut self, key: String, value: PrefValue)
        ensures
            final(self)@ == old(self)@.insert(key@, value@),
    {
        proof {
            use_type_invariant(&*self);
        }
        let ghost before = rows_view(self.entries@);
        match self.position(key.as_str()) {
            Some(i) => {
                proof {
                    assert(before[i as int] == self.entries@[i as int]@);
                    lemma_entries_map_update(before, i as int, value@);
                }
                let ghost shown = value@;
                let mut entries = Vec::new();
                std::mem::swap(&mut entries, &mut self.entries);
                entries[i].value = value;
                assert(rows_view(entries@) =~= before.update(
                    i as int,
                    PrefRowView { key: before[i as int].key, value: shown },
                ));
                self.entries = entries;
            },
            None => {
                proof {
                    lemma_entries_map(before);
                }
                let ghost added = (PrefRow { key, value })@;
                let mut entries = Vec::new();
                std::mem::swap(&mut entries, &mut self.entries);
                entries.push(PrefRow { key, value });
                proof {
                    assert(rows_view(entries@) =~= before.push(added));
                    assert(before.push(added).drop_last() =~= before);
                    assert forall|i: int, j: int|
                        0 <= i < j < before.push(added).len() implies (#[trigger] before.push(
                        added,
                    )[i]).key != (#[trigger] before.push(added)[j]).key by {
                        if j < before.len() {
                            assert(before[i].key != before[j].key);
                        } else {
                            assert(before[i].key != added.key);
                        }
                    }
                }
                self.entries = entries;
            },
        }
    }

    /// How many preferences are to change.
    pub fn len(&self) -> (n: usize)
        ensures
            n == self@.dom().len(),
            self@.dom().finite(),
    {
        proof {
            use_type_invariant(self);
            lemma_entries_map(rows_view(self.entries@));
        }
        self.entries.len()
    }

    /// The value that the preference `key` is to take, if it is to change.
    pub fn get(&self, key: &str) -> (value: Option<&PrefValue>)
        ensures
            match value {
                Some(v) => self@.dom().contains(key@) && self@[key@] == v@,
                None => !self@.dom().contains(key@),
            },
    {
        proof {
            use_type_invariant(self);
            lemma_entries_map(rows_view(self.entries@));
        }
        match self.position(key) {
            Some(i) => {
                assert(rows_view(self.entries@)[i as int] == self.entries@[i as int]@);
                Some(&self.entries[i].value)
            },
            None => None,
        }
    }

    /// The changes as a list, one entry for each preference that is to
    /// change.
    pub fn into_entries(self) -> (entries: Vec<PrefRow>)
        ensures
            entries_map(rows_view(entries@)) == self@,
            distinct_keys(rows_view(entries@)),
            entries@.len() == self@.dom().len(),
    {
        proof {
            use_type_invariant(&self);
            lemma_entries_map(rows_view(self.entries@));
        }
        self.entries
    }
}

/// The edit of one row: the row's position in the list of the page, and
/// what the user has put into its editor.
#[derive(Clone, Debug, PartialEq, Eq)]
pub struct RowEdit {
    pub row: usize,
    pub input: PrefInput,
}

/// The mathematical content of a [`RowEdit`].
pub struct RowEditView {
    pub row: int,
    pub input: PrefInputView,
}

impl View for RowEdit {
    type V = RowEditView;

    open spec fn view(&self) -> RowEditView {
        RowEditView { row: self.row as int, input: self.input@ }
    }
}

/// The edits of a list, each by its content.
pub open spec fn row_edits_view(edits: Seq<RowEdit>) -> Seq<RowEditView> {
    edits.map_values(|e: RowEdit| e@)
}

/// The changes that a frame's edits add up to, taken in the order in which
/// they were made: each edit that gives its row a value records that value
/// under the row's name, over what was recorded there before.  An edit that
/// names no row of the page records nothing.
pub open spec fn changes_of(rows: Seq<PrefRowView>, edits: Seq<RowEditView>) -> Map<
    Seq<char>,
    PrefValueView,
>
    decreases edits.len(),
{
    if edits.len() == 0 {
        Map::empty()
    } else {
        let before = changes_of(rows, edits.drop_last());
        let edit = edits.last();
        if 0 <= edit.row < rows.len() {
            match edited_value(rows[edit.row].value, edit.input) {
                Some(value) => before.insert(rows[edit.row].key, value),
                None => before,
            }
        } else {
            before
        }
    }
}

/// Only rows that have an editor change, and the value that a preference is
/// to take is of the kind of the value that it had.
pub proof fn law_changes_keep_kinds(rows: Seq<PrefRowView>, edits: Seq<RowEditView>, key: Seq<char>)
    requires
        changes_of(rows, edits).dom().contains(key),
    ensures
        exists|i: int|
            0 <= i < rows.len() && (#[trigger] rows[i]).key == key && editor_of(rows[i].value)
                != Editor::ReadOnly && editor_of(rows[i].value) == editor_of(
                changes_of(rows, edits)[key],
            ),
    decreases edits.len(),
{
    if edits.len() > 0 {
        let before = changes_of(rows, edits.drop_last());
        let edit = edits.last();
        if 0 <= edit.row < rows.len() && edited_value(rows[edit.row].value, edit.input).is_some()
            && rows[edit.row].key == key {
            assert(rows[edit.row].key == key);
        } else {
            law_changes_keep_kinds(rows, edits.drop_last(), key);
        }
    }
}

/// Adds up the edits of one frame of the preferences page.
///
/// `rows` are the rows of the page.  The changes are applied to the
/// preferences only when the frame is over; a preference that was edited
/// more than once in the frame takes the value of its last edit.
pub fn collect_pref_edits(rows: &Vec<PrefRow>, edits: &Vec<RowEdit>) -> (changes: PrefEdits)
    ensures
        changes@ == changes_of(rows_view(rows@), row_edits_view(edits@)),
{
    let ghost shown = rows_view(rows@);
    let ghost all = row_edits_view(edits@);
    let mut changes = PrefEdits::new();
    let mut i: usize = 0;
    proof {
        assert(all.take(0) =~= Seq::<RowEditView>::empty());
    }
    while i < edits.len()
        invariant
            i <= edits.len(),
            shown == rows_view(rows@),
            all == row_edits_view(edits@),
            changes@ == changes_of(shown, all.take(i as int)),
        decreases edits.len() - i,
    {
        proof {
            assert(all[i as int] == edits@[i as int]@);
            assert(all.take(i + 1).drop_last() =~= all.take(i as int));
            assert(all.take(i + 1).last() == all[i as int]);
        }
        let edit = &edits[i];
        if edit.row < rows.len() {
            assert(shown[edit.row as int] == rows@[edit.row as int]@);
            match rows[edit.row].value.edited(&edit.input) {
                Some(value) => {
                    changes.insert(rows[edit.row].key.clone(), value);
                },
                None => {},
            }
        }
        i += 1;
    }
    proof {
        assert(all.take(i as int) =~= all);
    }
    changes
}

} // verus!
