use vstd::prelude::*;
use crate::lua::{LuaValue, is_lua_string, entry_key_is, table_entry, lua_str};

verus! {

/// A value that has a fixed representation as a Lua value.
pub trait PushToLua: Sized {
    /// `v` is the Lua value that represents `self`.
    spec fn represented_by(&self, v: LuaValue) -> bool;

    /// Builds the Lua value that represents `self`.
    fn push_to_lua(&self) -> (v: LuaValue)
        ensures
            self.represented_by(v),
    ;
}

impl PushToLua for String {
    open spec fn represented_by(&self, v: LuaValue) -> bool {
        is_lua_string(v, self@)
    }

    fn push_to_lua(&self) -> (v: LuaValue) {
        LuaValue::Str(self.clone())
    }
}

impl PushToLua for bool {
    open spec fn represented_by(&self, v: LuaValue) -> bool {
        v == LuaValue::Boolean(*self)
    }

    fn push_to_lua(&self) -> (v: LuaValue) {
        LuaValue::Boolean(*self)
    }
}

impl PushToLua for u8 {
    open spec fn represented_by(&self, v: LuaValue) -> bool {
        v == LuaValue::Integer(*self as i64)
    }

    fn push_to_lua(&self) -> (v: LuaValue) {
        LuaValue::Integer(*self as i64)
    }
}

impl PushToLua for u16 {
    open spec fn represented_by(&self, v: LuaValue) -> bool {
        v == LuaValue::Integer(*self as i64)
    }

    fn push_to_lua(&self) -> (v: LuaValue) {
        LuaValue::Integer(*self as i64)
    }
}

impl PushToLua for u32 {
    open spec fn represented_by(&self, v: LuaValue) -> bool {
        v == LuaValue::Integer(*self as i64)
    }

    fn push_to_lua(&self) -> (v: LuaValue) {
        LuaValue::Integer(*self as i64)
    }
}

/// A floating-point number, held as the IEEE-754 bits of its `f64` value.
#[derive(Clone, Copy, Debug, Default, PartialEq, Eq)]
pub struct F64Bits(pub u64);

impl PushToLua for F64Bits {
    open spec fn represented_by(&self, v: LuaValue) -> bool {
        v == LuaValue::Number(self.0)
    }

    fn push_to_lua(&self) -> (v: LuaValue) {
        LuaValue::Number(self.0)
    }
}

impl<T: PushToLua> PushToLua for Option<T> {
    open spec fn represented_by(&self, v: LuaValue) -> bool {
        match self {
            Some(x) => x.represented_by(v),
            None => v is Nil,
        }
    }

    fn push_to_lua(&self) -> (v: LuaValue) {
        match self {
            Some(x) => x.push_to_lua(),
            None => LuaValue::Nil,
        }
    }
}

/// The `i`-th entry of the table `v` has the string key `k` and a value
/// that represents `x`.
pub open spec fn field_is<T: PushToLua>(v: LuaValue, i: int, k: Seq<char>, x: T) -> bool {
    entry_key_is(v, i, k) && x.represented_by(table_entry(v, i).1)
}

/// The table entry that sets the key `k` to the value that represents `x`.
pub fn field<T: PushToLua>(k: &str, x: &T) -> (e: (LuaValue, LuaValue))
    ensures
        is_lua_string(e.0, k@),
        x.represented_by(e.1),
{
    (lua_str(k), x.push_to_lua())
}

/// The most items that one Lua array built here holds.
pub const MAX_ARRAY_LEN: usize = 2147483647;

/// How many items of a sequence of `len` items a Lua array holds.
pub open spec fn array_len(len: int) -> int {
    if len < MAX_ARRAY_LEN { len } else { MAX_ARRAY_LEN as int }
}

impl<T: PushToLua> PushToLua for Vec<T> {
    open spec fn represented_by(&self, v: LuaValue) -> bool {
        &&& v matches LuaValue::Array(items)
        &&& items@.len() == array_len(self@.len() as int)
        &&& forall|i: int| 0 <= i < items@.len() ==> #[trigger] self@[i].represented_by(items@[i])
    }

    fn push_to_lua(&self) -> (v: LuaValue) {
        let len: usize = if self.len() < MAX_ARRAY_LEN { self.len() } else { MAX_ARRAY_LEN };
        let mut items: Vec<LuaValue> = Vec::new();
        let mut i: usize = 0;
        while i < len
            invariant
                len == array_len(self@.len() as int),
                len <= self@.len(),
                i <= len,
                items@.len() == i,
                forall|j: int| 0 <= j < i ==> #[trigger] self@[j].represented_by(items@[j]),
            decreases len - i,
        {
            let item = self[i].push_to_lua();
            items.push(item);
            i = i + 1;
        }
        LuaValue::Array(items)
    }
}

} // verus!
