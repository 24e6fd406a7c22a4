//! The subscription registry: which consumers want the quotes of which
//! symbol, in the order the symbols were first subscribed.
use vstd::prelude::*;

verus! {

/// Where dispatched quotes go. The number is a handle that the runtime
/// around the library resolves to a callback or to a channel.
#[derive(Debug, Clone, Copy, PartialEq, Eq, Structural)]
pub enum Consumer {
    Callback(u64),
    Sink(u64),
}

/// One symbol and the consumers registered for it.
pub struct Subscription {
    pub symbol: String,
    pub consumers: Vec<Consumer>,
}

/// The registry as a sequence of (symbol, consumers) entries.
pub type RegistryView = Seq<(Seq<char>, Seq<Consumer>)>;

/// No symbol has two entries.
pub open spec fn unique_symbols(v: RegistryView) -> bool {
    forall|i: int, j: int| 0 <= i < v.len() && 0 <= j < v.len() && i != j ==> v[i].0 != v[j].0
}

/// The registered symbols, in the order they were first subscribed.
pub open spec fn symbols_of(v: RegistryView) -> Seq<Seq<char>> {
    v.map_values(|e: (Seq<char>, Seq<Consumer>)| e.0)
}

/// Whether `sym` has an entry.
pub open spec fn has_symbol(v: RegistryView, sym: Seq<char>) -> bool {
    exists|i: int| 0 <= i < v.len() && v[i].0 == sym
}

/// The consumers registered for `sym`; empty where it has no entry.
pub open spec fn consumers_for(v: RegistryView, sym: Seq<char>) -> Seq<Consumer> {
    if has_symbol(v, sym) {
        v[choose|i: int| 0 <= i < v.len() && v[i].0 == sym].1
    } else {
        Seq::empty()
    }
}

/// The registry after `c` subscribes to `sym`: a new entry at the end for a
/// new symbol; otherwise `c` joins the entry's consumers unless already there.
pub open spec fn add_subscription(v: RegistryView, sym: Seq<char>, c: Consumer) -> RegistryView {
    if has_symbol(v, sym) {
        let i = choose|i: int| 0 <= i < v.len() && v[i].0 == sym;
        if v[i].1.contains(c) {
            v
        } else {
            v.update(i, (sym, v[i].1.push(c)))
        }
    } else {
        v.push((sym, seq![c]))
    }
}

/// The registry after `c` subscribes to each of `syms` in turn.
pub open spec fn add_subscriptions(v: RegistryView, syms: Seq<Seq<char>>, c: Consumer) -> RegistryView
    decreases syms.len(),
{
    if syms.len() == 0 {
        v
    } else {
        add_subscription(add_subscriptions(v, syms.drop_last(), c), syms.last(), c)
    }
}

/// No symbol has two entries and no entry lists a consumer twice.
pub open spec fn registry_wf(v: RegistryView) -> bool {
    &&& unique_symbols(v)
    &&& forall|i: int| 0 <= i < v.len() ==> (#[trigger] v[i]).1.no_duplicates()
}

/// One subscription keeps the invariant.
proof fn lemma_add_keeps_wf(v: RegistryView, sym: Seq<char>, c: Consumer)
    requires
        registry_wf(v),
    ensures
        registry_wf(add_subscription(v, sym, c)),
{
    lemma_add_keeps_prefix(v, sym, c);
    let w = add_subscription(v, sym, c);
    if has_symbol(v, sym) {
        let i = choose|i: int| 0 <= i < v.len() && v[i].0 == sym;
        if !v[i].1.contains(c) {
            assert forall|j: int| 0 <= j < w.len() implies (#[trigger] w[j]).1.no_duplicates() by {
                if j == i {
                    let old_cs = v[i].1;
                    let cs = old_cs.push(c);
                    assert forall|a: int, b: int| 0 <= a < cs.len() && 0 <= b < cs.len() && a != b
                        implies cs[a] != cs[b] by {
                        if a == old_cs.len() as int {
                            assert(old_cs[b] == cs[b]);
                        } else if b == old_cs.len() as int {
                            assert(old_cs[a] == cs[a]);
                        }
                    }
                }
            }
        }
    } else {
        assert forall|j: int| 0 <= j < w.len() implies (#[trigger] w[j]).1.no_duplicates() by {
            if j < v.len() {
                assert(w[j] == v[j]);
            }
        }
    }
}

/// The symbol-to-consumers registry.
pub struct Registry {
    entries: Vec<Subscription>,
}

impl View for Registry {
    type V = RegistryView;

    closed spec fn view(&self) -> RegistryView {
        self.entries@.map_values(|e: Subscription| (e.symbol@, e.consumers@))
    }
}

proof fn lemma_add_keeps_prefix(v: RegistryView, sym: Seq<char>, c: Consumer)
    requires
        unique_symbols(v),
    ensures
        unique_symbols(add_subscription(v, sym, c)),
        symbols_of(add_subscription(v, sym, c)).subrange(0, v.len() as int) =~= symbols_of(v),
        add_subscription(v, sym, c).len() == v.len() + if has_symbol(v, sym) {
            0int
        } else {
            1int
        },
{
    let w = add_subscription(v, sym, c);
    if has_symbol(v, sym) {
        let i = choose|i: int| 0 <= i < v.len() && v[i].0 == sym;
        assert forall|a: int, b: int| 0 <= a < w.len() && 0 <= b < w.len() && a != b implies w[a].0
            != w[b].0 by {
            assert(w[a].0 == v[a].0);
            assert(w[b].0 == v[b].0);
        }
        assert forall|a: int| 0 <= a < v.len() implies symbols_of(w)[a] == symbols_of(v)[a] by {
            assert(w[a].0 == v[a].0);
        }
    } else {
        assert forall|a: int| 0 <= a < v.len() implies symbols_of(w)[a] == symbols_of(v)[a] by {
            assert(w[a] == v[a]);
        }
    }
}

/// The symbols added by one subscription are new, and the earlier ones stay in place.
proof fn lemma_adds_keep_prefix(v: RegistryView, syms: Seq<Seq<char>>, c: Consumer)
    requires
        unique_symbols(v),
    ensures
        unique_symbols(add_subscriptions(v, syms, c)),
        add_subscriptions(v, syms, c).len() >= v.len(),
        symbols_of(add_subscriptions(v, syms, c)).subrange(0, v.len() as int) =~= symbols_of(v),
    decreases syms.len(),
{
    if syms.len() > 0 {
        let u = add_subscriptions(v, syms.drop_last(), c);
        lemma_adds_keep_prefix(v, syms.drop_last(), c);
        lemma_add_keeps_prefix(u, syms.last(), c);
        let w = add_subscription(u, syms.last(), c);
        assert forall|a: int| 0 <= a < v.len() implies symbols_of(w)[a] == symbols_of(v)[a] by {
            assert(symbols_of(w).subrange(0, u.len() as int)[a] == symbols_of(u)[a]);
            assert(symbols_of(u).subrange(0, v.len() as int)[a] == symbols_of(v)[a]);
        }
    }
}

impl Registry {
    /// The registry's invariant: no symbol has two entries, and no consumer
    /// is registered twice for one symbol.
    pub open spec fn wf(&self) -> bool {
        registry_wf(self@)
    }

    /// An empty registry.
    pub fn new() -> (r: Registry)
        ensures
            r.wf(),
            r@ == RegistryView::empty(),
    {
        let r = Registry { entries: Vec::new() };
        assert(r@ =~= RegistryView::empty());
        r
    }

    /// The position of the entry for `symbol`, if any.
    fn find(&self, symbol: &String) -> (r: Option<usize>)
        requires
            self.wf(),
        ensures
            match r {
                Some(i) => i < self@.len() && self@[i as int].0 == symbol@,
                None => !has_symbol(self@, symbol@),
            },
    {
        let mut i: usize = 0;
        while i < self.entries.len()
            invariant
                i <= self.entries@.len(),
                forall|j: int| 0 <= j < i ==> self@[j].0 != symbol@,
            decreases self.entries@.len() - i,
        {
            if self.entries[i].symbol.eq(symbol) {
                assert(self@[i as int].0 == self.entries@[i as int].symbol@);
                return Some(i);
            }
            assert(self@[i as int].0 == self.entries@[i as int].symbol@);
            i += 1;
        }
        None
    }

    /// The consumers registered for `symbol`, possibly none.
    pub fn lookup(&self, symbol: &String) -> (r: Vec<Consumer>)
        requires
            self.wf(),
        ensures
            r@ == consumers_for(self@, symbol@),
            r@.no_duplicates(),
    {
        match self.find(symbol) {
            Some(i) => {
                proof {
                    lemma_consumers_at(self@, symbol@, i as int);
                    assert(self@[i as int].1.no_duplicates());
                }
                self.entries[i].consumers.clone()
            },
            None => Vec::new(),
        }
    }

    /// Every registered symbol, in the order they were first subscribed.
    pub fn all_symbols(&self) -> (r: Vec<String>)
        requires
            self.wf(),
        ensures
            r.deep_view() == symbols_of(self@),
    {
        let mut out: Vec<String> = Vec::new();
        let mut i: usize = 0;
        while i < self.entries.len()
            invariant
                i <= self.entries@.len(),
                out.deep_view() =~= symbols_of(self@).subrange(0, i as int),
            decreases self.entries@.len() - i,
        {
            let sym = self.entries[i].symbol.clone();
            proof {
                assert(symbols_of(self@)[i as int] == sym@);
            }
            out.push(sym);
            assert(symbols_of(self@).subrange(0, i + 1) =~= symbols_of(self@).subrange(
                0,
                i as int,
            ).push(sym@));
            i += 1;
        }
        assert(symbols_of(self@).subrange(0, i as int) =~= symbols_of(self@));
        out
    }

    /// Subscribes `consumer` to each of `symbols` in turn: a new symbol gets
    /// an entry at the end; a known one keeps its consumers and gains this
    /// one (once). Returns the symbols that were new, in order.
    pub fn subscribe(&mut self, symbols: &Vec<String>, consumer: Consumer) -> (added: Vec<String>)
        requires
            old(self).wf(),
        ensures
            final(self).wf(),
            final(self)@ == add_subscriptions(old(self)@, symbols.deep_view(), consumer),
            added.deep_view() == symbols_of(final(self)@).skip(old(self)@.len() as int),
            forall|k: int|
                0 <= k < symbols@.len() ==> consumers_for(
                    final(self)@,
                    #[trigger] symbols.deep_view()[k],
                ).contains(consumer),
            forall|x: Seq<char>, d: Consumer| #[trigger]
                consumers_for(old(self)@, x).contains(d) ==> consumers_for(final(self)@, x).contains(
                    d,
                ),
    {
        let ghost start = self@;
        let mut added: Vec<String> = Vec::new();
        let mut k: usize = 0;
        proof {
            assert(symbols.deep_view().take(0) =~= Seq::<Seq<char>>::empty());
            assert(symbols_of(self@).skip(start.len() as int) =~= Seq::<Seq<char>>::empty());
        }
        while k < symbols.len()
            invariant
                k <= symbols@.len(),
                self.wf(),
                self@ == add_subscriptions(start, symbols.deep_view().take(k as int), consumer),
                self@.len() >= start.len(),
                added.deep_view() =~= symbols_of(self@).skip(start.len() as int),
            decreases symbols@.len() - k,
        {
            let ghost before = self@;
            let sym = &symbols[k];
            proof {
                assert(symbols.deep_view().take(k + 1).drop_last() =~= symbols.deep_view().take(
                    k as int,
                ));
                assert(symbols.deep_view().take(k + 1).last() == sym@);
                lemma_add_keeps_prefix(before, sym@, consumer);
                lemma_add_keeps_wf(before, sym@, consumer);
            }
            match self.find(sym) {
                Some(i) => {
                    if !has_consumer(&self.entries[i].consumers, consumer) {
                        self.entries[i].consumers.push(consumer);
                        assert(self@ =~= before.update(
                            i as int,
                            (sym@, before[i as int].1.push(consumer)),
                        ));
                    }
                    assert(symbols_of(self@) =~= symbols_of(before));
                },
                None => {
                    let entry = Subscription { symbol: sym.clone(), consumers: vec![consumer] };
                    assert(entry.consumers@ =~= seq![consumer]);
                    self.entries.push(entry);
                    assert(self@ =~= before.push((sym@, seq![consumer])));
                    let name = sym.clone();
                    added.push(name);
                    assert(symbols_of(self@) =~= symbols_of(before).push(sym@));
                    assert(symbols_of(self@).skip(start.len() as int) =~= symbols_of(before).skip(
                        start.len() as int,
                    ).push(sym@));
                },
            }
            proof {
                let w = self@;
                assert forall|a: int| 0 <= a < before.len() implies #[trigger] symbols_of(w)[a]
                    == symbols_of(before)[a] by {
                    assert(symbols_of(w).subrange(0, before.len() as int)[a] == symbols_of(
                        before,
                    )[a]);
                }
                assert(added.deep_view() =~= symbols_of(self@).skip(start.len() as int));
            }
            k += 1;
        }
        assert(symbols.deep_view().take(k as int) =~= symbols.deep_view());
        proof {
            lemma_adds_register(start, symbols.deep_view(), consumer);
        }
        added
    }
}

/// Whether `c` is among `cs`.
fn has_consumer(cs: &Vec<Consumer>, c: Consumer) -> (r: bool)
    ensures
        r == cs@.contains(c),
{
    let mut i: usize = 0;
    while i < cs.len()
        invariant
            i <= cs@.len(),
            forall|j: int| 0 <= j < i ==> cs@[j] != c,
        decreases cs@.len() - i,
    {
        if cs[i] == c {
            return true;
        }
        i += 1;
    }
    false
}

/// With unique symbols, the consumers of a symbol are those of its entry.
proof fn lemma_consumers_at(v: RegistryView, sym: Seq<char>, i: int)
    requires
        unique_symbols(v),
        0 <= i < v.len(),
        v[i].0 == sym,
    ensures
        consumers_for(v, sym) == v[i].1,
{
    assert(has_symbol(v, sym));
}

/// One subscription registers its consumer for its symbol and keeps every
/// earlier registration.
proof fn lemma_add_registers(v: RegistryView, sym: Seq<char>, c: Consumer)
    requires
        unique_symbols(v),
    ensures
        consumers_for(add_subscription(v, sym, c), sym).contains(c),
        forall|x: Seq<char>, d: Consumer| #[trigger]
            consumers_for(v, x).contains(d) ==> consumers_for(
                add_subscription(v, sym, c),
                x,
            ).contains(d),
{
    let w = add_subscription(v, sym, c);
    lemma_add_keeps_prefix(v, sym, c);
    if has_symbol(v, sym) {
        let i = choose|i: int| 0 <= i < v.len() && v[i].0 == sym;
        lemma_consumers_at(w, sym, i);
        if !v[i].1.contains(c) {
            assert(w[i].1[v[i].1.len() as int] == c);
        }
        assert forall|x: Seq<char>, d: Consumer| #[trigger]
            consumers_for(v, x).contains(d) implies consumers_for(w, x).contains(d) by {
            let j = choose|j: int| 0 <= j < v.len() && v[j].0 == x;
            lemma_consumers_at(w, x, j);
            if j == i && !v[i].1.contains(c) {
                let k = choose|k: int| 0 <= k < v[i].1.len() && v[i].1[k] == d;
                assert(w[i].1[k] == d);
            }
        }
    } else {
        lemma_consumers_at(w, sym, v.len() as int);
        assert(w[v.len() as int].1[0] == c);
        assert forall|x: Seq<char>, d: Consumer| #[trigger]
            consumers_for(v, x).contains(d) implies consumers_for(w, x).contains(d) by {
            let j = choose|j: int| 0 <= j < v.len() && v[j].0 == x;
            lemma_consumers_at(w, x, j);
        }
    }
}

/// Subscribing to a list registers the consumer for each symbol of it and
/// keeps every earlier registration.
proof fn lemma_adds_register(v: RegistryView, syms: Seq<Seq<char>>, c: Consumer)
    requires
        unique_symbols(v),
    ensures
        forall|k: int| 0 <= k < syms.len() ==> consumers_for(add_subscriptions(v, syms, c), #[trigger] syms[k]).contains(c),
        forall|x: Seq<char>, d: Consumer| #[trigger]
            consumers_for(v, x).contains(d) ==> consumers_for(
                add_subscriptions(v, syms, c),
                x,
            ).contains(d),
    decreases syms.len(),
{
    if syms.len() > 0 {
        let u = add_subscriptions(v, syms.drop_last(), c);
        lemma_adds_register(v, syms.drop_last(), c);
        lemma_adds_keep_prefix(v, syms.drop_last(), c);
        lemma_add_registers(u, syms.last(), c);
        assert forall|k: int| 0 <= k < syms.len() implies consumers_for(
            add_subscriptions(v, syms, c),
            #[trigger] syms[k],
        ).contains(c) by {
            if k < syms.len() - 1 {
                assert(syms.drop_last()[k] == syms[k]);
            }
        }
    }
}

/// Fan-out, not replace: when two consumers each subscribe to lists that
/// hold the same symbol, both are registered for that symbol.
pub proof fn lemma_fan_out(
    v: RegistryView,
    first: Seq<Seq<char>>,
    second: Seq<Seq<char>>,
    sym: Seq<char>,
    a: Consumer,
    b: Consumer,
)
    requires
        unique_symbols(v),
        first.contains(sym),
        second.contains(sym),
    ensures
        consumers_for(add_subscriptions(add_subscriptions(v, first, a), second, b), sym).contains(a),
        consumers_for(add_subscriptions(add_subscriptions(v, first, a), second, b), sym).contains(b),
{
    let u = add_subscriptions(v, first, a);
    lemma_adds_register(v, first, a);
    lemma_adds_keep_prefix(v, first, a);
    lemma_adds_register(u, second, b);
    let i = choose|i: int| 0 <= i < first.len() && first[i] == sym;
    let j = choose|j: int| 0 <= j < second.len() && second[j] == sym;
    assert(consumers_for(u, first[i]).contains(a));
    assert(consumers_for(add_subscriptions(u, second, b), second[j]).contains(b));
}

/// Every symbol stays registered once: subscribing never duplicates an entry.
pub proof fn lemma_subscriptions_unique(v: RegistryView, syms: Seq<Seq<char>>, c: Consumer)
    requires
        unique_symbols(v),
    ensures
        unique_symbols(add_subscriptions(v, syms, c)),
{
    lemma_adds_keep_prefix(v, syms, c);
}

/// Announcing every symbol on connecting and then the symbols that a later
/// subscription adds announces each registered symbol exactly once: the
/// registered symbols are the earlier ones followed by the added ones.
pub proof fn lemma_announcements_cover(v: RegistryView, syms: Seq<Seq<char>>, c: Consumer)
    requires
        unique_symbols(v),
    ensures
        symbols_of(add_subscriptions(v, syms, c)) =~= symbols_of(v) + symbols_of(
            add_subscriptions(v, syms, c),
        ).skip(v.len() as int),
        unique_symbols(add_subscriptions(v, syms, c)),
{
    lemma_adds_keep_prefix(v, syms, c);
    let w = add_subscriptions(v, syms, c);
    assert forall|a: int| 0 <= a < v.len() implies symbols_of(w)[a] == symbols_of(v)[a] by {
        assert(symbols_of(w).subrange(0, v.len() as int)[a] == symbols_of(v)[a]);
    }
}

/// Under the invariant each consumer is listed once for a symbol, so a
/// dispatched quote reaches each of its consumers exactly once.
pub proof fn lemma_each_consumer_once(v: RegistryView, sym: Seq<char>)
    requires
        registry_wf(v),
    ensures
        consumers_for(v, sym).no_duplicates(),
{
    if has_symbol(v, sym) {
        let i = choose|i: int| 0 <= i < v.len() && v[i].0 == sym;
        assert(v[i].1.no_duplicates());
    }
}

} // verus!
