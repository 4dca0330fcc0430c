use vstd::prelude::*;

verus! {

/// A value as the Lua side sees it once it has been pushed onto the stack.
///
/// Tables come in two shapes: `Table` holds keyed entries, set in order
/// (a later entry with an equal key overwrites an earlier one, and a `Nil`
/// value leaves the key unset), and `Array` holds a sequence whose first
/// item sits at index 1.
#[derive(Debug, PartialEq, Eq)]
pub enum LuaValue {
    Nil,
    Boolean(bool),
    Integer(i64),
    /// A Lua number, given by the IEEE-754 bits of its `f64` value.
    Number(u64),
    Str(String),
    Table(Vec<(LuaValue, LuaValue)>),
    Array(Vec<LuaValue>),
}

/// `v` is the Lua string `s`.
pub open spec fn is_lua_string(v: LuaValue, s: Seq<char>) -> bool {
    v matches LuaValue::Str(t) && t@ == s
}

/// `v` is a keyed table with exactly `n` entries.
pub open spec fn is_table_of_len(v: LuaValue, n: int) -> bool {
    v matches LuaValue::Table(es) && es@.len() == n
}

/// The `i`-th entry of a keyed table.
pub open spec fn table_entry(v: LuaValue, i: int) -> (LuaValue, LuaValue) {
    match v {
        LuaValue::Table(es) => es@[i],
        _ => (LuaValue::Nil, LuaValue::Nil),
    }
}

/// The `i`-th entry of `v` has the string key `k`.
pub open spec fn entry_key_is(v: LuaValue, i: int, k: Seq<char>) -> bool {
    is_lua_string(table_entry(v, i).0, k)
}

/// What Lua reads under the string key `k` of the entries `es` once they
/// have all been set: the value of the last entry with that key, or nil.
pub open spec fn entries_get(es: Seq<(LuaValue, LuaValue)>, k: Seq<char>) -> LuaValue
    decreases es.len(),
{
    if es.len() == 0 {
        LuaValue::Nil
    } else if is_lua_string(es.last().0, k) {
        es.last().1
    } else {
        entries_get(es.drop_last(), k)
    }
}

/// What Lua reads under the string key `k` of the table `v`.
pub open spec fn table_get(v: LuaValue, k: Seq<char>) -> LuaValue {
    match v {
        LuaValue::Table(es) => entries_get(es@, k),
        _ => LuaValue::Nil,
    }
}

/// The entry at `i` has the key `k` and no later entry has it: reading `k`
/// gives the entry's value.
pub proof fn lemma_entries_get(es: Seq<(LuaValue, LuaValue)>, k: Seq<char>, i: int)
    requires
        0 <= i < es.len(),
        is_lua_string(es[i].0, k),
        forall|j: int| i < j < es.len() ==> !is_lua_string(#[trigger] es[j].0, k),
    ensures
        entries_get(es, k) == es[i].1,
    decreases es.len(),
{
    if i < es.len() - 1 {
        let p = es.drop_last();
        assert(!is_lua_string(es[es.len() - 1].0, k));
        assert forall|j: int| i < j < p.len() implies !is_lua_string(#[trigger] p[j].0, k) by {
            assert(p[j] == es[j]);
        }
        lemma_entries_get(p, k, i);
    }
}

/// The Lua string holding the characters of `k`.
pub fn lua_str(k: &str) -> (v: LuaValue)
    ensures
        is_lua_string(v, k@),
{
    LuaValue::Str(String::from_str(k))
}

} // verus!
