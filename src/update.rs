//! The decoded update record and the planning of set directives from it.

use vstd::prelude::*;
use crate::text::same_text;

verus! {

/// One announcement of the feed: the prefixes that became reachable.
#[derive(Debug)]
pub struct Annoucment {
    pub prefixes: Vec<String>,
}

/// The routing update carried by an envelope.
#[derive(Debug)]
pub struct Data {
    /// The update's kind; only `UPDATE` is acted on.
    pub kind: String,
    pub announcements: Vec<Annoucment>,
    pub withdrawals: Vec<String>,
}

/// The outer envelope of a feed frame.
#[derive(Debug)]
pub struct RisBgpMessage {
    /// The envelope's kind (routing data or feed bookkeeping).
    pub kind: String,
    pub data: Data,
}

/// The content of an update: its kind, the prefixes of each announcement,
/// the withdrawn prefixes.
pub struct UpdateView {
    pub kind: Seq<char>,
    pub announcements: Seq<Seq<Seq<char>>>,
    pub withdrawals: Seq<Seq<char>>,
}

/// The content of an envelope: its kind and its update.
pub struct MessageView {
    pub kind: Seq<char>,
    pub data: UpdateView,
}

impl View for Annoucment {
    type V = Seq<Seq<char>>;

    open spec fn view(&self) -> Seq<Seq<char>> {
        texts(self.prefixes@)
    }
}

impl View for Data {
    type V = UpdateView;

    open spec fn view(&self) -> UpdateView {
        UpdateView {
            kind: self.kind@,
            announcements: self.announcements@.map_values(|a: Annoucment| a@),
            withdrawals: texts(self.withdrawals@),
        }
    }
}

impl View for RisBgpMessage {
    type V = MessageView;

    open spec fn view(&self) -> MessageView {
        MessageView { kind: self.kind@, data: self.data@ }
    }
}

/// What a directive does to the prefix's set.
#[derive(Debug, Clone, Copy, PartialEq, Eq, Structural)]
pub enum Verb {
    /// Insert a block for the prefix.
    Add,
    /// Lift the block on the prefix.
    Delete,
}

/// One change to make to a prefix set.
#[derive(Debug)]
pub struct Directive {
    pub verb: Verb,
    pub prefix: String,
}

impl View for Directive {
    type V = (Verb, Seq<char>);

    open spec fn view(&self) -> (Verb, Seq<char>) {
        (self.verb, self.prefix@)
    }
}

/// The word that the mutator takes for a verb.
pub open spec fn verb_text(v: Verb) -> Seq<char> {
    match v {
        Verb::Add => seq!['a', 'd', 'd'],
        Verb::Delete => seq!['d', 'e', 'l'],
    }
}

impl Verb {
    /// The mutator's word for this verb: `add` or `del`.
    pub fn as_str(&self) -> (r: &'static str)
        ensures
            r@ == verb_text(*self),
    {
        match self {
            Verb::Add => {
                let t = "add";
                proof {
                    reveal_strlit("add");
                    assert(t@ =~= verb_text(*self));
                }
                t
            },
            Verb::Delete => {
                let t = "del";
                proof {
                    reveal_strlit("del");
                    assert(t@ =~= verb_text(*self));
                }
                t
            },
        }
    }
}

/// The texts of a sequence of strings.
pub open spec fn texts(s: Seq<String>) -> Seq<Seq<char>> {
    s.map_values(|x: String| x@)
}

/// Every announced prefix, announcement after announcement, each in its order.
pub open spec fn announced(anns: Seq<Annoucment>) -> Seq<Seq<char>>
    decreases anns.len(),
{
    if anns.len() == 0 {
        Seq::empty()
    } else {
        announced(anns.drop_last()) + texts(anns.last().prefixes@)
    }
}

/// Every withdrawn prefix, in its order.
pub open spec fn withdrawn(data: Data) -> Seq<Seq<char>> {
    texts(data.withdrawals@)
}

/// Every prefix that an update names: the announced ones, then the withdrawn ones.
pub open spec fn prefixes_of(data: Data) -> Seq<Seq<char>> {
    announced(data.announcements@) + withdrawn(data)
}

/// One directive of the given verb for each prefix, in order.
pub open spec fn with_verb(v: Verb, ps: Seq<Seq<char>>) -> Seq<(Verb, Seq<char>)> {
    ps.map_values(|p: Seq<char>| (v, p))
}

/// The directives of an update: a delete for each announced prefix, then an
/// add for each withdrawn one.
pub open spec fn plan_of(data: Data) -> Seq<(Verb, Seq<char>)> {
    with_verb(Verb::Delete, announced(data.announcements@)) + with_verb(Verb::Add, withdrawn(data))
}

/// The views of a sequence of directives.
pub open spec fn directives(ds: Seq<Directive>) -> Seq<(Verb, Seq<char>)> {
    ds.map_values(|d: Directive| d@)
}

/// The ordered directives that an update calls for: announced prefixes are
/// unblocked, withdrawn ones are blocked, announcements first.
pub fn plan(data: &Data) -> (r: Vec<Directive>)
    ensures
        directives(r@) == plan_of(*data),
{
    let mut out: Vec<Directive> = Vec::new();
    let anns = &data.announcements;
    let mut i: usize = 0;
    while i < anns.len()
        invariant
            i <= anns@.len(),
            anns == data.announcements,
            directives(out@) == with_verb(Verb::Delete, announced(anns@.take(i as int))),
        decreases anns@.len() - i,
    {
        let ps = &anns[i].prefixes;
        let mut j: usize = 0;
        while j < ps.len()
            invariant
                i < anns@.len(),
                j <= ps@.len(),
                ps == anns@[i as int].prefixes,
                directives(out@) == with_verb(
                    Verb::Delete,
                    announced(anns@.take(i as int)) + texts(ps@.take(j as int)),
                ),
            decreases ps@.len() - j,
        {
            let ghost before = out@;
            out.push(Directive { verb: Verb::Delete, prefix: ps[j].clone() });
            proof {
                assert(texts(ps@.take(j + 1)) =~= texts(ps@.take(j as int)).push(ps@[j as int]@));
                assert(directives(out@) =~= directives(before).push((Verb::Delete, ps@[j as int]@)));
                assert(directives(out@) =~= with_verb(
                    Verb::Delete,
                    announced(anns@.take(i as int)) + texts(ps@.take(j + 1)),
                ));
            }
            j = j + 1;
        }
        proof {
            assert(anns@.take(i + 1).drop_last() =~= anns@.take(i as int));
            assert(ps@.take(j as int) =~= ps@);
            assert(announced(anns@.take(i + 1)) == announced(anns@.take(i as int)) + texts(ps@));
        }
        i = i + 1;
    }
    proof {
        assert(anns@.take(i as int) =~= anns@);
    }
    let ws = &data.withdrawals;
    let ghost deleted = out@;
    let mut k: usize = 0;
    while k < ws.len()
        invariant
            k <= ws@.len(),
            ws == data.withdrawals,
            directives(deleted) == with_verb(Verb::Delete, announced(data.announcements@)),
            directives(out@) == directives(deleted) + with_verb(Verb::Add, texts(ws@.take(k as int))),
        decreases ws@.len() - k,
    {
        let ghost before = out@;
        out.push(Directive { verb: Verb::Add, prefix: ws[k].clone() });
        proof {
            assert(texts(ws@.take(k + 1)) =~= texts(ws@.take(k as int)).push(ws@[k as int]@));
            assert(directives(out@) =~= directives(before).push((Verb::Add, ws@[k as int]@)));
            assert(directives(out@) =~= directives(deleted) + with_verb(
                Verb::Add,
                texts(ws@.take(k + 1)),
            ));
        }
        k = k + 1;
    }
    proof {
        assert(ws@.take(k as int) =~= ws@);
    }
    out
}

/// Every occurrence of a prefix in an update, announced or withdrawn, gives
/// exactly one directive, and the directives keep the order of the prefixes:
/// deletes for the announced ones, adds for the withdrawn ones.
pub proof fn lemma_one_directive_per_occurrence(data: Data)
    ensures
        plan_of(data).len() == prefixes_of(data).len(),
        plan_of(data).map_values(|d: (Verb, Seq<char>)| d.1) == prefixes_of(data),
        forall|i: int|
            0 <= i < plan_of(data).len() ==> (#[trigger] plan_of(data)[i]).0 == (if i < announced(
                data.announcements@,
            ).len() {
                Verb::Delete
            } else {
                Verb::Add
            }),
{
    assert(plan_of(data).map_values(|d: (Verb, Seq<char>)| d.1) =~= prefixes_of(data));
}

/// The update kind that calls for directives.
pub open spec fn update_kind() -> Seq<char> {
    seq!['U', 'P', 'D', 'A', 'T', 'E']
}

/// Whether a decoded envelope carries an update to act on; anything else is
/// passed over without error.
pub fn is_actionable(msg: &RisBgpMessage) -> (r: bool)
    ensures
        r == (msg.data.kind@ == update_kind()),
{
    let u = "UPDATE";
    proof {
        reveal_strlit("UPDATE");
        assert(u@ =~= update_kind());
    }
    same_text(msg.data.kind.as_str(), u)
}

/// The mutator calls of a sequence of directives: the verb word and the
/// prefix text of each, in order.
pub open spec fn calls_of(ds: Seq<(Verb, Seq<char>)>) -> Seq<(Seq<char>, Seq<char>)> {
    ds.map_values(|d: (Verb, Seq<char>)| (verb_text(d.0), d.1))
}

/// Something that changes prefix-set membership, one directive at a time.
pub trait Mutator {
    /// The calls made on this mutator so far, as verb word and prefix text.
    spec fn log(&self) -> Seq<(Seq<char>, Seq<char>)>;

    /// Applies one directive, given as the verb word and the prefix text.
    fn apply(&mut self, verb: &str, prefix: &str)
        ensures
            final(self).log() == old(self).log().push((verb@, prefix@)),
    ;
}

/// A mutator that only records the calls made on it.
#[derive(Debug)]
pub struct Recorder {
    pub calls: Vec<(String, String)>,
}

impl Recorder {
    /// A recorder with no calls yet.
    pub fn new() -> (r: Recorder)
        ensures
            r.log() == Seq::<(Seq<char>, Seq<char>)>::empty(),
    {
        let r = Recorder { calls: Vec::new() };
        assert(r.log() =~= Seq::<(Seq<char>, Seq<char>)>::empty());
        r
    }
}

impl Mutator for Recorder {
    open spec fn log(&self) -> Seq<(Seq<char>, Seq<char>)> {
        self.calls@.map_values(|c: (String, String)| (c.0@, c.1@))
    }

    fn apply(&mut self, verb: &str, prefix: &str) {
        let ghost before = self.calls@;
        self.calls.push((verb.to_string(), prefix.to_string()));
        assert(self.calls@.map_values(|c: (String, String)| (c.0@, c.1@)) =~= before.map_values(
            |c: (String, String)| (c.0@, c.1@),
        ).push((verb@, prefix@)));
    }
}

/// A mutator that hands each call to a function of the verb word and the
/// prefix text; its log is the calls handed over.
pub struct CallMutator<F: Fn(&str, &str)> {
    action: F,
    calls: Ghost<Seq<(Seq<char>, Seq<char>)>>,
}

impl<F: Fn(&str, &str)> CallMutator<F> {
    /// The function accepts every verb word and prefix text.
    #[verifier::type_invariant]
    spec fn accepts_all(self) -> bool {
        forall|verb: &str, prefix: &str| self.action.requires((verb, prefix))
    }

    /// A mutator that calls `action` for each directive, with no calls yet.
    pub fn new(action: F) -> (r: Self)
        requires
            forall|verb: &str, prefix: &str| action.requires((verb, prefix)),
        ensures
            r.log() == Seq::<(Seq<char>, Seq<char>)>::empty(),
    {
        CallMutator { action, calls: Ghost(Seq::empty()) }
    }
}

impl<F: Fn(&str, &str)> Mutator for CallMutator<F> {
    closed spec fn log(&self) -> Seq<(Seq<char>, Seq<char>)> {
        self.calls@
    }

    fn apply(&mut self, verb: &str, prefix: &str) {
        proof {
            use_type_invariant(&*self);
        }
        (self.action)(verb, prefix);
        self.calls = Ghost(self.calls@.push((verb@, prefix@)));
    }
}

/// Applies each directive of the update's plan through the mutator, in the
/// plan's order, and nothing else.
pub fn on_update<M: Mutator>(data: Data, m: &mut M)
    ensures
        final(m).log() == old(m).log() + calls_of(plan_of(data)),
{
    let steps = plan(&data);
    let mut i: usize = 0;
    while i < steps.len()
        invariant
            i <= steps@.len(),
            directives(steps@) == plan_of(data),
            m.log() == old(m).log() + calls_of(directives(steps@).take(i as int)),
        decreases steps@.len() - i,
    {
        let d = &steps[i];
        let verb = d.verb.as_str();
        let prefix = d.prefix.as_str();
        m.apply(verb, prefix);
        assert(calls_of(directives(steps@).take(i + 1)) =~= calls_of(
            directives(steps@).take(i as int),
        ).push((verb@, prefix@)));
        i = i + 1;
    }
    assert(directives(steps@).take(i as int) =~= directives(steps@));
}

/// The kind of an update plays no part in its plan: two updates with the same
/// announcements and withdrawals call for the same mutator calls.
pub proof fn lemma_plan_ignores_kind(a: Data, b: Data)
    requires
        a.announcements@ == b.announcements@,
        a.withdrawals@ == b.withdrawals@,
    ensures
        calls_of(plan_of(a)) == calls_of(plan_of(b)),
{
}

} // verus!
