//! Console variables that the game declares with a name, a default value and
//! flags, and registers with the engine the first time their value is needed.

use vstd::prelude::*;

verus! {

/// A console variable declared by the game. `H` is what the engine hands
/// back when the variable is registered; the variable is registered when its
/// value is first asked for, and kept registered once that succeeded.
pub struct Cvar<H> {
    key: String,
    value: String,
    flags: i32,
    handle: Option<H>,
}

impl<H> Cvar<H> {
    /// The name under which the variable is registered.
    pub closed spec fn name(&self) -> Seq<char> {
        self.key@
    }

    /// The value the engine gives the variable when nothing has set it yet.
    pub closed spec fn default_value(&self) -> Seq<char> {
        self.value@
    }

    /// The flags the variable is registered with.
    pub closed spec fn flag_bits(&self) -> i32 {
        self.flags
    }

    /// What the engine returned when the variable was registered, if it was.
    pub closed spec fn registered(&self) -> Option<H> {
        self.handle
    }

    /// Declares a variable; nothing is registered yet.
    pub fn new(key: &str, value: &str, flags: i32) -> (c: Self)
        ensures
            c.name() == key@,
            c.default_value() == value@,
            c.flag_bits() == flags,
            c.registered() is None,
    {
        Cvar { key: key.to_owned(), value: value.to_owned(), flags, handle: None }
    }

    /// Makes sure the variable is registered: while it is not, each call
    /// hands the name, the default value and the flags to `register`, and
    /// keeps what it returns when that is `Some` (a registration that
    /// failed, `None`, leaves the variable unregistered, so the next call
    /// tries again). Once registered, calls do not call `register` and
    /// change nothing.
    pub fn validate<F>(&mut self, register: F)
        where F: FnOnce(&str, &str, i32) -> Option<H>,
        requires
            old(self).registered() is None ==> forall|k: &str, v: &str|
                k@ == old(self).name() && v@ == old(self).default_value()
                ==> #[trigger] call_requires(register, (k, v, old(self).flag_bits())),
        ensures
            final(self).name() == old(self).name(),
            final(self).default_value() == old(self).default_value(),
            final(self).flag_bits() == old(self).flag_bits(),
            old(self).registered() is Some ==> final(self).registered() == old(self).registered(),
            old(self).registered() is None ==> exists|k: &str, v: &str|
                k@ == old(self).name() && v@ == old(self).default_value()
                && #[trigger] call_ensures(register, (k, v, old(self).flag_bits()),
                    final(self).registered()),
    {
        if self.handle.is_none() {
            let k = self.key.as_str();
            let v = self.value.as_str();
            let h = register(k, v, self.flags);
            self.handle = h;
            assert(call_ensures(register, (k, v, old(self).flag_bits()), self.registered()));
        }
    }

    /// What the engine returned when the variable was registered, if it was.
    pub fn handle(&self) -> (r: Option<&H>)
        ensures
            r is None <==> self.registered() is None,
            r matches Some(h) ==> self.registered() == Some(*h),
    {
        self.handle.as_ref()
    }
}

} // verus!
