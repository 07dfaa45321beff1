//! The configuration surface: a closed map of string keys to loosely-typed
//! values, with consuming, type-coercing accessors. Every recognized key is
//! extracted; keys left over after extraction are a hard configuration error.

use vstd::prelude::*;

verus! {

use vstd::string::StrSliceExecFns;
use vstd::string::StringExecFns;
use crate::strutil::{lower_seq, str_eq, str_eq_ignore_ascii_case};
use crate::errors::{SkypydbError, ErrorKind};

/// A configuration number, carried as its decimal rendering. The accessors
/// read everything they need — the coerced text, and whether the value is
/// zero — from that rendering.
pub struct NumValue {
    pub text: String,
}

/// A decimal digit other than zero.
pub open spec fn is_nonzero_digit(c: char) -> bool {
    49 <= c as u32 && c as u32 <= 57
}

/// Whether a number's decimal rendering spells a nonzero value: some digit
/// one to nine occurs in the mantissa, before any exponent marker. A zero
/// mantissa gives zero whatever the exponent says.
pub open spec fn num_text_nonzero(s: Seq<char>) -> bool
    decreases s.len(),
{
    if s.len() == 0 {
        false
    } else if s[0] == 'e' || s[0] == 'E' {
        false
    } else if is_nonzero_digit(s[0]) {
        true
    } else {
        num_text_nonzero(s.drop_first())
    }
}

/// Runtime test for [`num_text_nonzero`].
pub fn num_is_nonzero(s: &str) -> (r: bool)
    ensures
        r == num_text_nonzero(s@),
{
    let len = s.unicode_len();
    proof {
        assert(s@.skip(0) =~= s@);
    }
    let mut i: usize = 0;
    while i < len
        invariant
            i <= len,
            len == s@.len(),
            num_text_nonzero(s@) == num_text_nonzero(s@.skip(i as int)),
        decreases len - i,
    {
        let c = s.get_char(i);
        proof {
            assert(s@.skip(i as int)[0] == s@[i as int]);
        }
        if c == 'e' || c == 'E' {
            return false;
        }
        let u = c as u32;
        if 49 <= u && u <= 57 {
            return true;
        }
        proof {
            assert(s@.skip(i as int).drop_first() =~= s@.skip(i as int + 1));
        }
        i += 1;
    }
    proof {
        assert(s@.skip(len as int) =~= Seq::<char>::empty());
    }
    false
}

/// One loosely-typed configuration value. Aggregate values (arrays, objects)
/// are carried only as their rendered text, since no accessor looks inside
/// them.
pub struct ConfigValue {
    pub v: ConfigValueKind,
}

/// The kinds of loosely-typed configuration values.
pub enum ConfigValueKind {
    Str(String),
    Num(NumValue),
    Bool(bool),
    Null,
    Composite(String),
}

/// The text any non-string value is coerced to by the string accessors.
pub open spec fn stringified(v: ConfigValueKind) -> Seq<char> {
    match v {
        ConfigValueKind::Str(s) => s@,
        ConfigValueKind::Num(n) => n.text@,
        ConfigValueKind::Bool(b) => if b {
            "true"@
        } else {
            "false"@
        },
        ConfigValueKind::Null => "null"@,
        ConfigValueKind::Composite(t) => t@,
    }
}

impl ConfigValue {
    /// Coerces the value to text, as the string accessors do.
    pub fn into_string(self) -> (r: String)
        ensures
            r@ == stringified(self.v),
    {
        match self.v {
            ConfigValueKind::Str(s) => s,
            ConfigValueKind::Num(n) => n.text,
            ConfigValueKind::Bool(b) => if b {
                String::from_str("true")
            } else {
                String::from_str("false")
            },
            ConfigValueKind::Null => String::from_str("null"),
            ConfigValueKind::Composite(t) => t,
        }
    }
}

/// The first value stored under a key, if any.
pub open spec fn lookup(s: Seq<(Seq<char>, ConfigValueKind)>, k: Seq<char>) -> Option<
    ConfigValueKind,
>
    decreases s.len(),
{
    if s.len() == 0 {
        None
    } else if s[0].0 == k {
        Some(s[0].1)
    } else {
        lookup(s.drop_first(), k)
    }
}

/// A sequence of entries with the first entry under a key removed.
pub open spec fn without_key(s: Seq<(Seq<char>, ConfigValueKind)>, k: Seq<char>) -> Seq<
    (Seq<char>, ConfigValueKind),
>
    decreases s.len(),
{
    if s.len() == 0 {
        s
    } else if s[0].0 == k {
        s.drop_first()
    } else {
        seq![s[0]] + without_key(s.drop_first(), k)
    }
}

/// No two entries share a key.
pub open spec fn unique_keys(s: Seq<(Seq<char>, ConfigValueKind)>) -> bool {
    forall|i: int, j: int| 0 <= i < j < s.len() ==> s[i].0 != s[j].0
}

/// Removing a key keeps the other entries, their relative order, and key
/// uniqueness; the removed key is gone when keys were unique.
pub proof fn lemma_without_key(s: Seq<(Seq<char>, ConfigValueKind)>, k: Seq<char>)
    ensures
        lookup(s, k).is_none() ==> without_key(s, k) == s,
        lookup(s, k).is_some() ==> without_key(s, k).len() == s.len() - 1,
        unique_keys(s) ==> unique_keys(without_key(s, k)) && lookup(without_key(s, k), k)
            .is_none(),
        forall|k2: Seq<char>|
            k2 != k ==> #[trigger] lookup(without_key(s, k), k2) == lookup(s, k2),
    decreases s.len(),
{
    if s.len() == 0 {
    } else if s[0].0 == k {
        assert forall|k2: Seq<char>| k2 != k implies #[trigger] lookup(without_key(s, k), k2)
            == lookup(s, k2) by {
            assert(without_key(s, k) == s.drop_first());
        }
        if unique_keys(s) {
            assert(lookup(s.drop_first(), k).is_none()) by {
                lemma_lookup_index(s.drop_first(), k);
            }
        }
    } else {
        lemma_without_key(s.drop_first(), k);
        let w = without_key(s, k);
        assert(w == seq![s[0]] + without_key(s.drop_first(), k));
        assert(w.drop_first() =~= without_key(s.drop_first(), k));
        assert(w[0] == s[0]);
        assert forall|k2: Seq<char>| k2 != k implies #[trigger] lookup(without_key(s, k), k2)
            == lookup(s, k2) by {
            if k2 == s[0].0 {
                assert(lookup(w, k2) == Some(w[0].1));
            } else {
                assert(lookup(w, k2) == lookup(w.drop_first(), k2));
                assert(lookup(without_key(s.drop_first(), k), k2) == lookup(s.drop_first(), k2));
            }
        }
        if unique_keys(s) {
            assert(unique_keys(s.drop_first()));
            lemma_lookup_index(without_key(s.drop_first(), k), s[0].0);
            lemma_lookup_index(s.drop_first(), s[0].0);
            assert forall|i: int, j: int| 0 <= i < j < w.len() implies w[i].0 != w[j].0 by {
                if i > 0 {
                    assert(w[i] == without_key(s.drop_first(), k)[i - 1]);
                    assert(w[j] == without_key(s.drop_first(), k)[j - 1]);
                } else {
                    assert(w[j] == without_key(s.drop_first(), k)[j - 1]);
                    if w[j].0 == s[0].0 {
                        lemma_membership(without_key(s.drop_first(), k), j - 1);
                        assert(lookup(without_key(s.drop_first(), k), s[0].0).is_some());
                    }
                }
            }
        }
    }
}

/// A present key has a witnessing index, and conversely.
pub proof fn lemma_lookup_index(s: Seq<(Seq<char>, ConfigValueKind)>, k: Seq<char>)
    ensures
        lookup(s, k).is_some() <==> exists|i: int| 0 <= i < s.len() && s[i].0 == k,
    decreases s.len(),
{
    if s.len() > 0 {
        lemma_lookup_index(s.drop_first(), k);
        if s[0].0 != k {
            if lookup(s, k).is_some() {
                let i = choose|i: int| 0 <= i < s.drop_first().len() && s.drop_first()[i].0 == k;
                assert(s[i + 1].0 == k);
            }
            if exists|i: int| 0 <= i < s.len() && s[i].0 == k {
                let i = choose|i: int| 0 <= i < s.len() && s[i].0 == k;
                assert(s.drop_first()[i - 1].0 == k);
            }
        }
    }
}

proof fn lemma_membership(s: Seq<(Seq<char>, ConfigValueKind)>, i: int)
    requires
        0 <= i < s.len(),
    ensures
        lookup(s, s[i].0).is_some(),
{
    lemma_lookup_index(s, s[i].0);
}

/// Configuration closure: extracting two recognized keys from a
/// uniquely-keyed configuration leaves nothing behind exactly when every key
/// was one of the recognized ones — so the leftover-keys check accepts
/// precisely the closed configurations.
pub proof fn lemma_config_closure_two(
    s: Seq<(Seq<char>, ConfigValueKind)>,
    k1: Seq<char>,
    k2: Seq<char>,
)
    requires
        unique_keys(s),
    ensures
        without_key(without_key(s, k1), k2).len() == 0 <==> (forall|i: int|
            0 <= i < s.len() ==> s[i].0 == k1 || s[i].0 == k2),
{
    let t = without_key(s, k1);
    let u = without_key(t, k2);
    lemma_without_key(s, k1);
    lemma_without_key(t, k2);
    if u.len() == 0 {
        assert forall|i: int| 0 <= i < s.len() implies s[i].0 == k1 || s[i].0 == k2 by {
            let k = s[i].0;
            if k != k1 && k != k2 {
                lemma_membership(s, i);
                assert(lookup(t, k) == lookup(s, k));
                assert(lookup(u, k) == lookup(t, k));
                assert(lookup(u, k).is_none());
            }
        }
    } else {
        let k = u[0].0;
        lemma_membership(u, 0);
        assert(lookup(u, k2).is_none());
        assert(k != k2);
        assert(lookup(u, k) == lookup(t, k));
        assert(lookup(t, k1).is_none());
        assert(k != k1);
        assert(lookup(t, k) == lookup(s, k));
        lemma_lookup_index(s, k);
        let w = choose|i: int| 0 <= i < s.len() && s[i].0 == k;
        assert(s[w].0 != k1 && s[w].0 != k2);
    }
}

/// Splitting off an unmatched prefix changes neither lookup nor removal.
proof fn lemma_key_prefix(s: Seq<(Seq<char>, ConfigValueKind)>, k: Seq<char>, i: int)
    requires
        0 <= i <= s.len(),
        forall|j: int| 0 <= j < i ==> s[j].0 != k,
    ensures
        lookup(s, k) == lookup(s.skip(i), k),
        without_key(s, k) == s.take(i) + without_key(s.skip(i), k),
    decreases i,
{
    if i == 0 {
        assert(s.skip(0) =~= s);
        assert(s.take(0) + without_key(s, k) =~= without_key(s, k));
    } else {
        let d = s.drop_first();
        lemma_key_prefix(d, k, i - 1);
        assert(d.skip(i - 1) =~= s.skip(i));
        assert(s.take(i) + without_key(s.skip(i), k) =~= seq![s[0]] + (d.take(i - 1) + without_key(
            d.skip(i - 1),
            k,
        )));
    }
}

/// The closed, loosely-typed configuration map handed to the factory.
/// Entries keep insertion order; keys are unique.
pub struct ConfigMap {
    entries: Vec<(String, ConfigValue)>,
}

impl ConfigMap {
    /// The entries as (key characters, value) pairs, in map order.
    pub closed spec fn entries_view(&self) -> Seq<(Seq<char>, ConfigValueKind)> {
        self.entries@.map_values(|e: (String, ConfigValue)| (e.0@, e.1.v))
    }

    /// Key uniqueness, which construction maintains.
    pub open spec fn wf(&self) -> bool {
        unique_keys(self.entries_view())
    }

    /// An empty configuration.
    pub fn new() -> (r: ConfigMap)
        ensures
            r.entries_view() == Seq::<(Seq<char>, ConfigValueKind)>::empty(),
            r.wf(),
    {
        let r = ConfigMap { entries: Vec::new() };
        proof {
            assert(r.entries_view() =~= Seq::<(Seq<char>, ConfigValueKind)>::empty());
        }
        r
    }

    /// How many entries the map holds.
    pub fn len(&self) -> (n: usize)
        ensures
            n == self.entries_view().len(),
    {
        self.entries.len()
    }

    /// Removes and returns the first value stored under `key`.
    pub fn remove(&mut self, key: &str) -> (r: Option<ConfigValue>)
        ensures
            match r {
                Some(v) => lookup(old(self).entries_view(), key@) == Some(v.v),
                None => lookup(old(self).entries_view(), key@).is_none(),
            },
            final(self).entries_view() == without_key(old(self).entries_view(), key@),
    {
        let ghost s = self.entries_view();
        let n = self.entries.len();
        let mut i: usize = 0;
        while i < n
            invariant
                n == self.entries@.len(),
                i <= n,
                s == self.entries_view(),
                s == old(self).entries_view(),
                forall|j: int| 0 <= j < i ==> s[j].0 != key@,
            decreases n - i,
        {
            if str_eq(self.entries[i].0.as_str(), key) {
                proof {
                    lemma_key_prefix(s, key@, i as int);
                    assert(s.skip(i as int)[0].0 == key@);
                    assert(lookup(s.skip(i as int), key@) == Some(s[i as int].1));
                    assert(s[i as int] == (self.entries@[i as int].0@, self.entries@[i as int].1.v));
                }
                let e = self.entries.remove(i);
                proof {
                    assert(e.1.v == s[i as int].1);
                    assert(self.entries_view() =~= s.take(i as int) + s.skip(i as int)
                        .drop_first());
                    assert(s.skip(i as int).drop_first() =~= s.skip(i as int + 1));
                    assert(without_key(s, key@) =~= s.take(i as int) + s.skip(i as int + 1));
                    assert(self.entries_view() =~= without_key(s, key@));
                }
                return Some(e.1);
            }
            i += 1;
        }
        proof {
            lemma_key_prefix(s, key@, n as int);
            assert(s.skip(n as int) =~= Seq::<(Seq<char>, ConfigValueKind)>::empty());
            assert(s.take(n as int) + without_key(s.skip(n as int), key@) =~= s);
        }
        None
    }

    /// Stores `value` under `key`, replacing any earlier entry for the key;
    /// a new key goes to the end of the map order.
    pub fn insert(&mut self, key: String, value: ConfigValue)
        ensures
            final(self).entries_view() == without_key(old(self).entries_view(), key@).push(
                (key@, value.v),
            ),
            old(self).wf() ==> final(self).wf(),
    {
        proof {
            lemma_without_key(old(self).entries_view(), key@);
        }
        let _ = self.remove(key.as_str());
        let ghost mid = self.entries_view();
        self.entries.push((key, value));
        proof {
            assert(self.entries_view() =~= mid.push(
                (self.entries@.last().0@, self.entries@.last().1.v),
            ));
            if old(self).wf() {
                lemma_lookup_index(mid, self.entries@.last().0@);
                assert(unique_keys(self.entries_view()));
            }
        }
    }

    /// The keys of the map, in map order, joined with `", "`.
    pub fn joined_keys(&self) -> (r: String)
        ensures
            r@ == joined_keys_spec(self.entries_view()),
    {
        let mut r = String::new();
        let n = self.entries.len();
        let ghost s = self.entries_view();
        let mut i: usize = 0;
        while i < n
            invariant
                n == self.entries@.len(),
                i <= n,
                s == self.entries_view(),
                r@ == joined_keys_spec(s.take(i as int)),
            decreases n - i,
        {
            if i > 0 {
                r.append(", ");
            }
            r.append(self.entries[i].0.as_str());
            proof {
                assert(s.take(i as int + 1).drop_last() =~= s.take(i as int));
                assert(s.take(i as int + 1).last() == s[i as int]);
            }
            i += 1;
        }
        proof {
            assert(s.take(n as int) =~= s);
        }
        r
    }
}

/// A decimal digit.
pub open spec fn is_digit(c: char) -> bool {
    48 <= c as u32 && c as u32 <= 57
}

/// A leading sign.
pub open spec fn is_sign(c: char) -> bool {
    c == '+' || c == '-'
}

/// One step of the float-literal recognizer. States: 0 start, 1 after sign,
/// 2 integer digits (accepting), 3 lone dot, 4 fraction (accepting), 5 after
/// the exponent marker, 6 after the exponent sign, 7 exponent digits
/// (accepting), 8 dead.
pub open spec fn fsm_step(st: u8, c: char) -> u8 {
    if st == 0 {
        if is_sign(c) {
            1
        } else if is_digit(c) {
            2
        } else if c == '.' {
            3
        } else {
            8
        }
    } else if st == 1 {
        if is_digit(c) {
            2
        } else if c == '.' {
            3
        } else {
            8
        }
    } else if st == 2 {
        if is_digit(c) {
            2
        } else if c == '.' {
            4
        } else if c == 'e' || c == 'E' {
            5
        } else {
            8
        }
    } else if st == 3 {
        if is_digit(c) {
            4
        } else {
            8
        }
    } else if st == 4 {
        if is_digit(c) {
            4
        } else if c == 'e' || c == 'E' {
            5
        } else {
            8
        }
    } else if st == 5 {
        if is_sign(c) {
            6
        } else if is_digit(c) {
            7
        } else {
            8
        }
    } else if st == 6 || st == 7 {
        if is_digit(c) {
            7
        } else {
            8
        }
    } else {
        8
    }
}

/// Whether a recognizer state accepts.
pub open spec fn fsm_accepting(st: u8) -> bool {
    st == 2 || st == 4 || st == 7
}

/// The recognizer run over a whole sequence from a starting state.
pub open spec fn fsm_run(s: Seq<char>, st: u8) -> u8
    decreases s.len(),
{
    if s.len() == 0 {
        st
    } else {
        fsm_run(s.drop_first(), fsm_step(st, s[0]))
    }
}

proof fn lemma_fsm_snoc(s: Seq<char>, c: char, st: u8)
    ensures
        fsm_run(s.push(c), st) == fsm_step(fsm_run(s, st), c),
    decreases s.len(),
{
    if s.len() == 0 {
        assert(s.push(c)[0] == c);
        assert(s.push(c).drop_first() =~= Seq::<char>::empty());
        assert(fsm_run(s.push(c), st) == fsm_run(Seq::<char>::empty(), fsm_step(st, c)));
        assert(fsm_run(Seq::<char>::empty(), fsm_step(st, c)) == fsm_step(st, c));
        assert(fsm_run(s, st) == st);
    } else {
        assert(s.push(c)[0] == s[0]);
        assert(s.push(c).drop_first() =~= s.drop_first().push(c));
        assert(fsm_run(s.push(c), st) == fsm_run(s.drop_first().push(c), fsm_step(st, s[0])));
        lemma_fsm_snoc(s.drop_first(), c, fsm_step(st, s[0]));
        assert(fsm_run(s, st) == fsm_run(s.drop_first(), fsm_step(st, s[0])));
    }
}

/// A numeric float literal: optional sign, then digits with at most one dot
/// (and at least one digit), then an optional exponent part.
pub open spec fn is_number_literal(s: Seq<char>) -> bool {
    fsm_accepting(fsm_run(s, 0))
}

/// A keyword float literal: optional sign, then `inf`, `infinity` or `nan`,
/// case-insensitively.
pub open spec fn is_keyword_literal(s: Seq<char>) -> bool {
    let body = if s.len() > 0 && is_sign(s[0]) {
        s.drop_first()
    } else {
        s
    };
    lower_seq(body) == lower_seq("inf"@) || lower_seq(body) == lower_seq("infinity"@) || lower_seq(
        body,
    ) == lower_seq("nan"@)
}

/// What a string must spell to be accepted as a floating-point value.
pub open spec fn is_float_literal(s: Seq<char>) -> bool {
    is_number_literal(s) || is_keyword_literal(s)
}

fn fsm_step_exec(st: u8, c: char) -> (r: u8)
    ensures
        r == fsm_step(st, c),
{
    let u = c as u32;
    let sign = c == '+' || c == '-';
    let digit = 48 <= u && u <= 57;
    if st == 0 {
        if sign {
            1
        } else if digit {
            2
        } else if c == '.' {
            3
        } else {
            8
        }
    } else if st == 1 {
        if digit {
            2
        } else if c == '.' {
            3
        } else {
            8
        }
    } else if st == 2 {
        if digit {
            2
        } else if c == '.' {
            4
        } else if c == 'e' || c == 'E' {
            5
        } else {
            8
        }
    } else if st == 3 {
        if digit {
            4
        } else {
            8
        }
    } else if st == 4 {
        if digit {
            4
        } else if c == 'e' || c == 'E' {
            5
        } else {
            8
        }
    } else if st == 5 {
        if sign {
            6
        } else if digit {
            7
        } else {
            8
        }
    } else if st == 6 || st == 7 {
        if digit {
            7
        } else {
            8
        }
    } else {
        8
    }
}

/// Decides whether a string spells a floating-point value.
pub fn check_float_literal(s: &str) -> (r: bool)
    ensures
        r == is_float_literal(s@),
{
    let len = s.unicode_len();
    let mut start: usize = 0;
    if len > 0 {
        let c0 = s.get_char(0);
        if c0 == '+' || c0 == '-' {
            start = 1;
        }
    }
    let body = s.substring_char(start, len);
    proof {
        if start == 1 {
            assert(s@.subrange(1, len as int) =~= s@.drop_first());
        } else {
            assert(s@.subrange(0, len as int) =~= s@);
        }
    }
    if str_eq_ignore_ascii_case(body, "inf") || str_eq_ignore_ascii_case(body, "infinity")
        || str_eq_ignore_ascii_case(body, "nan") {
        return true;
    }
    let mut st: u8 = 0;
    let mut i: usize = 0;
    while i < len
        invariant
            i <= len,
            len == s@.len(),
            st == fsm_run(s@.take(i as int), 0),
        decreases len - i,
    {
        proof {
            lemma_fsm_snoc(s@.take(i as int), s@[i as int], 0);
            assert(s@.take(i as int + 1) =~= s@.take(i as int).push(s@[i as int]));
        }
        st = fsm_step_exec(st, s.get_char(i));
        i += 1;
    }
    proof {
        assert(s@.take(len as int) =~= s@);
    }
    st == 2 || st == 4 || st == 7
}

/// The keys of a sequence of entries joined with `", "`, in order.
pub open spec fn joined_keys_spec(s: Seq<(Seq<char>, ConfigValueKind)>) -> Seq<char>
    decreases s.len(),
{
    if s.len() == 0 {
        Seq::empty()
    } else if s.len() == 1 {
        s[0].0
    } else {
        joined_keys_spec(s.drop_last()) + ", "@ + s.last().0
    }
}

/// A validated floating-point configuration value, carried as the text that
/// spells it; only the unverified rim turns it into a machine float.
#[derive(Debug)]
pub struct FloatValue {
    pub text: String,
}

/// The message rejecting a string that does not spell a float.
pub open spec fn invalid_float_message(key: Seq<char>) -> Seq<char> {
    "Invalid float value for key '"@ + key + "'"@
}

/// The message rejecting a value of the wrong type where a float is wanted.
pub open spec fn float_type_message(key: Seq<char>) -> Seq<char> {
    "Invalid value type for key '"@ + key + "', expected float"@
}

/// The message rejecting a value of the wrong type where a bool is wanted.
pub open spec fn bool_type_message(key: Seq<char>) -> Seq<char> {
    "Invalid value type for key '"@ + key + "', expected bool"@
}

/// The message rejecting configuration keys left over after extraction.
pub open spec fn unsupported_keys_message(provider: Seq<char>, keys: Seq<char>) -> Seq<char> {
    "Unsupported embedding config keys for provider '"@ + provider + "': "@ + keys
}

/// The strings the bool accessor reads as true, case-insensitively.
pub open spec fn truthy_string(s: Seq<char>) -> bool {
    lower_seq(s) == lower_seq("true"@) || lower_seq(s) == lower_seq("1"@) || lower_seq(s)
        == lower_seq("yes"@)
}

/// What the string-with-default accessor answers for a key.
pub open spec fn str_or_default(
    s: Seq<(Seq<char>, ConfigValueKind)>,
    k: Seq<char>,
    d: Seq<char>,
) -> Seq<char> {
    match lookup(s, k) {
        Some(v) => stringified(v),
        None => d,
    }
}

/// What the optional-string accessor answers for a key.
pub open spec fn opt_str(s: Seq<(Seq<char>, ConfigValueKind)>, k: Seq<char>) -> Option<Seq<char>> {
    match lookup(s, k) {
        Some(v) => match v {
            ConfigValueKind::Null => None,
            _ => Some(stringified(v)),
        },
        None => None,
    }
}

/// What the bool-with-default accessor answers for a key whose value is not
/// an aggregate.
pub open spec fn bool_or_default(
    s: Seq<(Seq<char>, ConfigValueKind)>,
    k: Seq<char>,
    d: bool,
) -> bool {
    match lookup(s, k) {
        None => d,
        Some(v) => match v {
            ConfigValueKind::Null => d,
            ConfigValueKind::Bool(b) => b,
            ConfigValueKind::Str(t) => truthy_string(t@),
            ConfigValueKind::Num(n) => num_text_nonzero(n.text@),
            ConfigValueKind::Composite(_) => d,
        },
    }
}

/// The characters of an optional string.
pub open spec fn opt_view(o: Option<String>) -> Option<Seq<char>> {
    match o {
        Some(s) => Some(s@),
        None => None,
    }
}

fn key_message(prefix: &str, key: &str, suffix: &str) -> (r: String)
    ensures
        r@ == prefix@ + key@ + suffix@,
{
    let mut m = String::from_str(prefix);
    m.append(key);
    m.append(suffix);
    proof {
        assert(m@ =~= prefix@ + key@ + suffix@);
    }
    m
}

/// Consumes `key` and coerces its value to a string; a missing key yields
/// the default. Never fails.
pub fn take_string(config: &mut ConfigMap, key: &str, default: &str) -> (r: Result<
    String,
    SkypydbError,
>)
    ensures
        final(config).entries_view() == without_key(old(config).entries_view(), key@),
        match r {
            Ok(s) => match lookup(old(config).entries_view(), key@) {
                Some(v) => s@ == stringified(v),
                None => s@ == default@,
            },
            Err(_) => false,
        },
{
    match config.remove(key) {
        Some(value) => Ok(value.into_string()),
        None => Ok(default.to_owned()),
    }
}

/// Consumes `key` and coerces its value to an optional string: null and
/// missing yield absence, anything else is stringified. Never fails.
pub fn take_optional_string(config: &mut ConfigMap, key: &str) -> (r: Result<
    Option<String>,
    SkypydbError,
>)
    ensures
        final(config).entries_view() == without_key(old(config).entries_view(), key@),
        match r {
            Ok(opt) => match lookup(old(config).entries_view(), key@) {
                Some(v) => match v {
                    ConfigValueKind::Null => opt.is_none(),
                    _ => match opt {
                        Some(s) => s@ == stringified(v),
                        None => false,
                    },
                },
                None => opt.is_none(),
            },
            Err(_) => false,
        },
{
    match config.remove(key) {
        Some(value) => match value.v {
            ConfigValueKind::Null => Ok(None),
            other => Ok(Some(ConfigValue { v: other }.into_string())),
        },
        None => Ok(None),
    }
}

/// Consumes `key` and coerces its value to an optional float: numbers pass
/// through as their text, strings must spell a float, null and missing yield
/// absence, and any other type is a validation error.
pub fn take_optional_float(config: &mut ConfigMap, key: &str) -> (r: Result<
    Option<FloatValue>,
    SkypydbError,
>)
    ensures
        final(config).entries_view() == without_key(old(config).entries_view(), key@),
        match lookup(old(config).entries_view(), key@) {
            None => r == Ok::<Option<FloatValue>, SkypydbError>(None),
            Some(v) => match v {
                ConfigValueKind::Null => r == Ok::<Option<FloatValue>, SkypydbError>(None),
                ConfigValueKind::Num(n) => match r {
                    Ok(Some(f)) => f.text@ == n.text@,
                    _ => false,
                },
                ConfigValueKind::Str(s) => if is_float_literal(s@) {
                    match r {
                        Ok(Some(f)) => f.text@ == s@,
                        _ => false,
                    }
                } else {
                    match r {
                        Err(e) => e.kind == ErrorKind::Validation && e.message@
                            == invalid_float_message(key@),
                        _ => false,
                    }
                },
                _ => match r {
                    Err(e) => e.kind == ErrorKind::Validation && e.message@ == float_type_message(
                        key@,
                    ),
                    _ => false,
                },
            },
        },
{
    match config.remove(key) {
        Some(value) => match value.v {
            ConfigValueKind::Null => Ok(None),
            ConfigValueKind::Num(n) => Ok(Some(FloatValue { text: n.text })),
            ConfigValueKind::Str(s) => if check_float_literal(s.as_str()) {
                Ok(Some(FloatValue { text: s }))
            } else {
                Err(SkypydbError::validation(key_message("Invalid float value for key '", key, "'")))
            },
            _ => Err(SkypydbError::validation(key_message(
                "Invalid value type for key '",
                key,
                "', expected float",
            ))),
        },
        None => Ok(None),
    }
}

/// Consumes `key` and coerces its value to a bool: booleans pass through,
/// strings match `true`, `1` or `yes` case-insensitively, numbers are
/// nonzero-truthy, null and missing yield the default, and aggregate values
/// are a validation error.
pub fn take_bool(config: &mut ConfigMap, key: &str, default: bool) -> (r: Result<
    bool,
    SkypydbError,
>)
    ensures
        final(config).entries_view() == without_key(old(config).entries_view(), key@),
        match lookup(old(config).entries_view(), key@) {
            None => r == Ok::<bool, SkypydbError>(default),
            Some(v) => match v {
                ConfigValueKind::Null => r == Ok::<bool, SkypydbError>(default),
                ConfigValueKind::Bool(b) => r == Ok::<bool, SkypydbError>(b),
                ConfigValueKind::Str(s) => r == Ok::<bool, SkypydbError>(truthy_string(s@)),
                ConfigValueKind::Num(n) => r == Ok::<bool, SkypydbError>(num_text_nonzero(n.text@)),
                ConfigValueKind::Composite(_) => match r {
                    Err(e) => e.kind == ErrorKind::Validation && e.message@ == bool_type_message(
                        key@,
                    ),
                    _ => false,
                },
            },
        },
{
    match config.remove(key) {
        Some(value) => match value.v {
            ConfigValueKind::Null => Ok(default),
            ConfigValueKind::Bool(b) => Ok(b),
            ConfigValueKind::Str(s) => {
                let t = str_eq_ignore_ascii_case(s.as_str(), "true") || str_eq_ignore_ascii_case(
                    s.as_str(),
                    "1",
                ) || str_eq_ignore_ascii_case(s.as_str(), "yes");
                Ok(t)
            },
            ConfigValueKind::Num(n) => Ok(num_is_nonzero(n.text.as_str())),
            ConfigValueKind::Composite(_) => Err(SkypydbError::validation(key_message(
                "Invalid value type for key '",
                key,
                "', expected bool",
            ))),
        },
        None => Ok(default),
    }
}

/// Rejects a configuration that still holds keys after every recognized key
/// was extracted, naming the provider and the offending keys.
pub fn validate_remaining_config(provider: &str, config: &ConfigMap) -> (r: Result<
    (),
    SkypydbError,
>)
    ensures
        match r {
            Ok(()) => config.entries_view().len() == 0,
            Err(e) => config.entries_view().len() > 0 && e.kind == ErrorKind::Validation
                && e.message@ == unsupported_keys_message(
                provider@,
                joined_keys_spec(config.entries_view()),
            ),
        },
{
    if config.len() == 0 {
        return Ok(());
    }
    let keys = config.joined_keys();
    let mut m = String::from_str("Unsupported embedding config keys for provider '");
    m.append(provider);
    m.append("': ");
    m.append(keys.as_str());
    proof {
        assert(m@ =~= unsupported_keys_message(provider@, joined_keys_spec(config.entries_view())));
    }
    Err(SkypydbError::validation(m))
}

} // verus!
