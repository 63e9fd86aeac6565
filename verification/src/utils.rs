//! The naming transformer: identifiers in any mixed-case convention are
//! rewritten as lowercase words joined by single underscores.
//!
//! Leading and trailing runs of underscores are kept verbatim as a prefix and
//! suffix; a run of uppercase letters counts as one word (an acronym) unless a
//! lowercase letter follows, in which case the run's last letter starts the
//! next word.

use vstd::prelude::*;

use crate::strutil::{is_upper, lower_char, pop_char, push_char, spec_is_upper, spec_join,
    spec_lower};

verus! {

#[derive(Eq, PartialEq, Copy, Clone, Structural)]
pub enum CaseParserState {
    Sep,
    Upper,
    Lower,
}

/// State machine over {separator, upper-run, lower-run} that splits an
/// identifier into words.
pub struct CaseParser {
    prefix: String,
    part: String,
    parts: Vec<String>,
    underscores: usize,
    state: CaseParserState,
}

/// Mathematical state of [`CaseParser`].
#[verifier::ext_equal]
pub struct CaseModel {
    pub prefix: Seq<char>,
    pub part: Seq<char>,
    pub parts: Seq<Seq<char>>,
    pub underscores: nat,
    pub state: CaseParserState,
}

impl View for CaseParser {
    type V = CaseModel;

    closed spec fn view(&self) -> CaseModel {
        CaseModel {
            prefix: self.prefix@,
            part: self.part@,
            parts: self.parts.deep_view(),
            underscores: self.underscores as nat,
            state: self.state,
        }
    }
}

/// A run of `n` underscores.
pub open spec fn spec_underscores(n: nat) -> Seq<char> {
    Seq::new(n, |i: int| '_')
}

/// The machine's initial state.
pub open spec fn case_init() -> CaseModel {
    CaseModel {
        prefix: Seq::empty(),
        part: Seq::empty(),
        parts: Seq::empty(),
        underscores: 0,
        state: CaseParserState::Sep,
    }
}

/// Closes the word under construction: the first closed word fixes the
/// prefix, pending separators are discarded, and the word joins `parts`.
pub open spec fn case_finish_part(m: CaseModel) -> CaseModel {
    CaseModel {
        prefix: if m.parts.len() == 0 {
            spec_underscores(m.underscores)
        } else {
            m.prefix
        },
        part: Seq::empty(),
        parts: m.parts.push(m.part),
        underscores: 0,
        state: m.state,
    }
}

/// One transition of the word-splitting machine.
pub open spec fn case_feed(m: CaseModel, c: char) -> CaseModel {
    if c == '_' {
        let m1 = if m.state != CaseParserState::Sep {
            case_finish_part(m)
        } else {
            m
        };
        CaseModel { underscores: m1.underscores + 1, state: CaseParserState::Sep, ..m1 }
    } else if spec_is_upper(c) {
        let m1 = if m.state == CaseParserState::Lower {
            case_finish_part(m)
        } else {
            m
        };
        CaseModel {
            part: m1.part.push(spec_lower(c)),
            state: CaseParserState::Upper,
            ..m1
        }
    } else {
        let m1 = if m.state == CaseParserState::Upper && m.part.len() >= 2 {
            let split = case_finish_part(CaseModel { part: m.part.drop_last(), ..m });
            CaseModel { part: seq![m.part.last()], ..split }
        } else {
            m
        };
        CaseModel { part: m1.part.push(c), state: CaseParserState::Lower, ..m1 }
    }
}

/// The machine run over a whole identifier.
pub open spec fn case_feed_all(m: CaseModel, s: Seq<char>) -> CaseModel
    decreases s.len(),
{
    if s.len() == 0 {
        m
    } else {
        case_feed(case_feed_all(m, s.drop_last()), s.last())
    }
}

/// The rendered result of a final machine state.
pub open spec fn case_result(m: CaseModel) -> Seq<char> {
    if m.state == CaseParserState::Sep {
        m.prefix + spec_join(m.parts, seq!['_']) + spec_underscores(m.underscores)
    } else {
        let m1 = case_finish_part(m);
        m1.prefix + spec_join(m1.parts, seq!['_'])
    }
}

/// The canonical lowercase-with-underscores form of an identifier.
pub open spec fn spec_to_snake_case(s: Seq<char>) -> Seq<char> {
    case_result(case_feed_all(case_init(), s))
}

impl CaseParser {
    pub fn new() -> (r: Self)
        ensures
            r@ == case_init(),
    {
        let r = Self {
            prefix: String::new(),
            part: String::new(),
            parts: Vec::new(),
            underscores: 0,
            state: CaseParserState::Sep,
        };
        proof {
            assert(r@ =~= case_init());
        }
        r
    }

    fn finish_part(&mut self)
        ensures
            final(self)@ == case_finish_part(old(self)@),
    {
        if self.parts.len() == 0 {
            self.prefix = underscores_string(self.underscores);
        }
        self.underscores = 0;
        let part = self.part.clone();
        self.part = String::new();
        self.parts.push(part);
        proof {
            assert(self.parts.deep_view() =~= old(self).parts.deep_view().push(old(self).part@));
            assert(self@ =~= case_finish_part(old(self)@));
        }
    }

    pub fn feed(&mut self, c: char)
        requires
            old(self)@.underscores < usize::MAX,
        ensures
            final(self)@ == case_feed(old(self)@, c),
    {
        if c == '_' {
            if self.state != CaseParserState::Sep {
                self.finish_part();
            }
            self.underscores = self.underscores + 1;
            self.state = CaseParserState::Sep;
            proof {
                assert(self@ =~= case_feed(old(self)@, c));
            }
        } else if is_upper(c) {
            if self.state == CaseParserState::Lower {
                self.finish_part();
            }
            push_char(&mut self.part, lower_char(c));
            self.state = CaseParserState::Upper;
            proof {
                assert(self@ =~= case_feed(old(self)@, c));
            }
        } else {
            if self.state == CaseParserState::Upper && self.part.as_str().unicode_len() >= 2 {
                let last = pop_char(&mut self.part).unwrap();
                self.finish_part();
                push_char(&mut self.part, last);
                proof {
                    assert(self.part@ =~= seq![old(self).part@.last()]);
                }
            }
            push_char(&mut self.part, c);
            self.state = CaseParserState::Lower;
            proof {
                assert(self@ =~= case_feed(old(self)@, c));
            }
        }
    }

    pub fn finish(&mut self) -> (r: String)
        ensures
            r@ == case_result(old(self)@),
    {
        let suffix = if self.state == CaseParserState::Sep {
            underscores_string(self.underscores)
        } else {
            self.finish_part();
            String::new()
        };
        let mut r = self.prefix.clone();
        let joined = join_parts(&self.parts);
        r.append(joined.as_str());
        r.append(suffix.as_str());
        proof {
            assert(r@ =~= case_result(old(self)@));
        }
        r
    }
}

/// A `String` of `n` underscores.
fn underscores_string(n: usize) -> (r: String)
    ensures
        r@ == spec_underscores(n as nat),
{
    let mut r = String::new();
    let mut i: usize = 0;
    while i < n
        invariant
            i <= n,
            r@ == spec_underscores(i as nat),
        decreases n - i,
    {
        push_char(&mut r, '_');
        proof {
            assert(r@ =~= spec_underscores((i + 1) as nat));
        }
        i = i + 1;
    }
    r
}

/// The words joined with single underscores.
fn join_parts(v: &Vec<String>) -> (r: String)
    ensures
        r@ == spec_join(v.deep_view(), seq!['_']),
{
    let mut r = String::new();
    let mut i: usize = 0;
    while i < v.len()
        invariant
            i <= v.len(),
            r@ == spec_join(v.deep_view().take(i as int), seq!['_']),
        decreases v.len() - i,
    {
        if i > 0 {
            push_char(&mut r, '_');
        }
        r.append(v[i].as_str());
        proof {
            let dv = v.deep_view();
            assert(dv.take(i + 1).drop_last() =~= dv.take(i as int));
            assert(dv.take(i + 1).last() == dv[i as int]);
            if i == 0 {
                assert(dv.take(1) =~= seq![dv[0]]);
                assert(r@ =~= spec_join(dv.take(1), seq!['_']));
            } else {
                crate::strutil::lemma_join_last(dv.take(i + 1), seq!['_']);
                assert(r@ =~= spec_join(dv.take(i + 1), seq!['_']));
            }
        }
        i = i + 1;
    }
    proof {
        assert(v.deep_view().take(v.len() as int) =~= v.deep_view());
    }
    r
}

/// Rewrites `input` in the canonical lowercase-with-underscores convention.
pub fn to_snake_case(input: &str) -> (r: String)
    ensures
        r@ == spec_to_snake_case(input@),
{
    let mut parser = CaseParser::new();
    let n = input.unicode_len();
    let mut i: usize = 0;
    while i < n
        invariant
            i <= n,
            n == input@.len(),
            parser@ == case_feed_all(case_init(), input@.take(i as int)),
            parser@.underscores <= i,
        decreases n - i,
    {
        parser.feed(input.get_char(i));
        proof {
            assert(input@.take(i + 1).drop_last() =~= input@.take(i as int));
            assert(input@.take(i + 1).last() == input@[i as int]);
        }
        i = i + 1;
    }
    proof {
        assert(input@.take(n as int) =~= input@);
    }
    parser.finish()
}

} // verus!

verus! {

/// A word as the machine emits it: nonempty, with no separator and no
/// uppercase letter inside.
pub open spec fn lower_word(w: Seq<char>) -> bool {
    w.len() > 0 && forall|i: int| 0 <= i < w.len() ==> w[i] != '_' && !spec_is_upper(w[i])
}

pub open spec fn words_wf(ws: Seq<Seq<char>>) -> bool {
    forall|i: int| 0 <= i < ws.len() ==> lower_word(ws[i])
}

/// A canonical identifier: underscore prefix, words joined by single
/// underscores, underscore suffix.
pub open spec fn render_canonical(a: nat, ws: Seq<Seq<char>>, b: nat) -> Seq<char> {
    spec_underscores(a) + spec_join(ws, seq!['_']) + spec_underscores(b)
}

/// Machine states reachable from `case_init`.
pub open spec fn case_inv(m: CaseModel) -> bool {
    &&& words_wf(m.parts)
    &&& forall|i: int| 0 <= i < m.part.len() ==> m.part[i] != '_' && !spec_is_upper(m.part[i])
    &&& (m.state == CaseParserState::Sep <==> m.part.len() == 0)
    &&& (m.parts.len() == 0 ==> m.prefix == Seq::<char>::empty())
    &&& m.prefix == spec_underscores(m.prefix.len())
}

proof fn lemma_feed_preserves_inv(m: CaseModel, c: char)
    requires
        case_inv(m),
    ensures
        case_inv(case_feed(m, c)),
{
    crate::strutil::lemma_lower_shape(c);
    let r = case_feed(m, c);
    if c == '_' {
        if m.state != CaseParserState::Sep {
            let f = case_finish_part(m);
            assert(f.parts.last() == m.part);
            assert(words_wf(f.parts));
            assert(f.prefix == spec_underscores(f.prefix.len()));
        }
    } else if spec_is_upper(c) {
        assert(spec_lower(c) != '_');
    } else {
        if m.state == CaseParserState::Upper && m.part.len() >= 2 {
            let w = m.part.drop_last();
            assert(lower_word(w));
            let split = case_finish_part(CaseModel { part: w, ..m });
            assert(words_wf(split.parts));
            assert(r.part =~= seq![m.part.last()].push(c));
        }
    }
}

proof fn lemma_feed_all_inv(s: Seq<char>)
    ensures
        case_inv(case_feed_all(case_init(), s)),
    decreases s.len(),
{
    if s.len() == 0 {
        assert(case_init().prefix =~= spec_underscores(0));
    } else {
        lemma_feed_all_inv(s.drop_last());
        lemma_feed_preserves_inv(case_feed_all(case_init(), s.drop_last()), s.last());
    }
}

/// The canonical shape of a machine result.
pub open spec fn canon_of(m: CaseModel) -> (nat, Seq<Seq<char>>, nat) {
    if m.state == CaseParserState::Sep {
        if m.parts.len() == 0 {
            (0, m.parts, m.underscores)
        } else {
            (m.prefix.len(), m.parts, m.underscores)
        }
    } else {
        let m1 = case_finish_part(m);
        (m1.prefix.len(), m1.parts, 0)
    }
}

proof fn lemma_result_shape_of(m: CaseModel)
    requires
        case_inv(m),
    ensures
        words_wf(canon_of(m).1),
        case_result(m) == render_canonical(canon_of(m).0, canon_of(m).1, canon_of(m).2),
        canon_of(m).1.len() == 0 ==> canon_of(m).0 == 0,
{
    let (a, ws, b) = canon_of(m);
    if m.state == CaseParserState::Sep {
        if m.parts.len() == 0 {
            assert(case_result(m) =~= render_canonical(a, ws, b));
        } else {
            assert(m.prefix =~= spec_underscores(a));
            assert(case_result(m) =~= render_canonical(a, ws, b));
        }
    } else {
        let m1 = case_finish_part(m);
        assert(lower_word(m.part));
        assert(words_wf(m1.parts));
        assert(m1.prefix == spec_underscores(m1.prefix.len()));
        assert(m1.prefix =~= spec_underscores(a));
        assert(spec_underscores(0) =~= Seq::<char>::empty());
        assert(case_result(m) =~= render_canonical(a, ws, b));
    }
}

/// Every result of the transformer has the canonical shape.
proof fn lemma_result_shape(s: Seq<char>)
    ensures
        words_wf(canon_of(case_feed_all(case_init(), s)).1),
        spec_to_snake_case(s) == render_canonical(
            canon_of(case_feed_all(case_init(), s)).0,
            canon_of(case_feed_all(case_init(), s)).1,
            canon_of(case_feed_all(case_init(), s)).2,
        ),
        canon_of(case_feed_all(case_init(), s)).1.len() == 0 ==> canon_of(
            case_feed_all(case_init(), s),
        ).0 == 0,
{
    lemma_feed_all_inv(s);
    lemma_result_shape_of(case_feed_all(case_init(), s));
}

/// Running the machine distributes over concatenation.
proof fn lemma_feed_all_append(m: CaseModel, s: Seq<char>, t: Seq<char>)
    ensures
        case_feed_all(m, s + t) == case_feed_all(case_feed_all(m, s), t),
    decreases t.len(),
{
    if t.len() == 0 {
        assert(s + t =~= s);
    } else {
        lemma_feed_all_append(m, s, t.drop_last());
        assert((s + t).drop_last() =~= s + t.drop_last());
        assert((s + t).last() == t.last());
        assert(case_feed_all(m, s + t) == case_feed(
            case_feed_all(m, (s + t).drop_last()),
            (s + t).last(),
        ));
    }
}

/// Feeding a run of separators only counts them.
proof fn lemma_feed_underscores(m: CaseModel, k: nat)
    requires
        m.state == CaseParserState::Sep,
    ensures
        case_feed_all(m, spec_underscores(k)) == (CaseModel {
            underscores: m.underscores + k,
            ..m
        }),
    decreases k,
{
    if k == 0 {
        assert(spec_underscores(0) =~= Seq::<char>::empty());
        assert(case_feed_all(m, spec_underscores(0)) =~= m);
    } else {
        lemma_feed_underscores(m, (k - 1) as nat);
        assert(spec_underscores(k).drop_last() =~= spec_underscores((k - 1) as nat));
        assert(spec_underscores(k).last() == '_');
        let m1 = case_feed_all(m, spec_underscores((k - 1) as nat));
        assert(case_feed(m1, '_') =~= (CaseModel { underscores: m.underscores + k, ..m }));
        assert(case_feed_all(m, spec_underscores(k)) =~= (CaseModel {
            underscores: m.underscores + k,
            ..m
        }));
    }
}

/// Feeding one emitted word from a separator state only fills `part`.
proof fn lemma_feed_word(m: CaseModel, w: Seq<char>)
    requires
        m.state == CaseParserState::Sep,
        m.part.len() == 0,
        lower_word(w),
    ensures
        case_feed_all(m, w) == (CaseModel { part: w, state: CaseParserState::Lower, ..m }),
    decreases w.len(),
{
    if w.len() == 1 {
        assert(w.drop_last() =~= Seq::<char>::empty());
        assert(case_feed_all(m, w.drop_last()) == m);
        assert(case_feed(m, w.last()).part =~= w);
        assert(case_feed_all(m, w) =~= (CaseModel {
            part: w,
            state: CaseParserState::Lower,
            ..m
        }));
    } else {
        assert(lower_word(w.drop_last()));
        lemma_feed_word(m, w.drop_last());
        let m1 = case_feed_all(m, w.drop_last());
        assert(case_feed(m1, w.last()).part =~= w.drop_last().push(w.last()));
        assert(w.drop_last().push(w.last()) =~= w);
        assert(case_feed_all(m, w) =~= (CaseModel {
            part: w,
            state: CaseParserState::Lower,
            ..m
        }));
    }
}

/// The machine state after the prefix and the first `k` words.
spec fn state_after_words(a: nat, ws: Seq<Seq<char>>, k: int) -> CaseModel {
    if k == 1 {
        CaseModel {
            prefix: Seq::empty(),
            part: ws[0],
            parts: Seq::empty(),
            underscores: a,
            state: CaseParserState::Lower,
        }
    } else {
        CaseModel {
            prefix: spec_underscores(a),
            part: ws[k - 1],
            parts: ws.take(k - 1),
            underscores: 1,
            state: CaseParserState::Lower,
        }
    }
}

proof fn lemma_replay_words(a: nat, ws: Seq<Seq<char>>, k: int)
    requires
        words_wf(ws),
        1 <= k <= ws.len(),
    ensures
        case_feed_all(case_init(), spec_underscores(a) + spec_join(ws.take(k), seq!['_']))
            == state_after_words(a, ws, k),
    decreases k,
{
    if k == 1 {
        lemma_feed_underscores(case_init(), a);
        let m1 = case_feed_all(case_init(), spec_underscores(a));
        assert(ws.take(1) =~= seq![ws[0]]);
        assert(spec_join(ws.take(1), seq!['_']) == ws[0]);
        lemma_feed_word(m1, ws[0]);
        lemma_feed_all_append(case_init(), spec_underscores(a), ws[0]);
        assert(case_feed_all(case_init(), spec_underscores(a) + spec_join(ws.take(1), seq!['_']))
            =~= state_after_words(a, ws, 1));
    } else {
        lemma_replay_words(a, ws, k - 1);
        let prev = state_after_words(a, ws, k - 1);
        crate::strutil::lemma_join_last(ws.take(k), seq!['_']);
        assert(ws.take(k).drop_last() =~= ws.take(k - 1));
        assert(ws.take(k).last() == ws[k - 1]);
        // feed the separator: the word under construction is closed
        let sep_fed = case_feed(prev, '_');
        assert(lower_word(ws[k - 2]));
        if k == 2 {
            assert(sep_fed =~= (CaseModel {
                prefix: spec_underscores(a),
                part: Seq::empty(),
                parts: seq![ws[0]],
                underscores: 1,
                state: CaseParserState::Sep,
            }));
            assert(seq![ws[0]] =~= ws.take(1));
        } else {
            assert(sep_fed =~= (CaseModel {
                prefix: spec_underscores(a),
                part: Seq::empty(),
                parts: ws.take(k - 2).push(ws[k - 2]),
                underscores: 1,
                state: CaseParserState::Sep,
            }));
            assert(ws.take(k - 2).push(ws[k - 2]) =~= ws.take(k - 1));
        }
        lemma_feed_word(sep_fed, ws[k - 1]);
        let step = seq!['_'] + ws[k - 1];
        assert(step.drop_first() =~= ws[k - 1]);
        assert(step[0] == '_');
        lemma_feed_all_append(case_init(), spec_underscores(a) + spec_join(
            ws.take(k - 1),
            seq!['_'],
        ), step);
        assert(case_feed_all(prev, step) == case_feed_all(case_feed(prev, '_'), step.drop_first()))
            by {
            assert(step.len() == 1 + ws[k - 1].len());
            lemma_feed_all_split_first(prev, step);
        }
        assert(spec_underscores(a) + spec_join(ws.take(k), seq!['_']) =~= (spec_underscores(a)
            + spec_join(ws.take(k - 1), seq!['_'])) + step);
        assert(case_feed_all(case_init(), spec_underscores(a) + spec_join(ws.take(k), seq!['_']))
            =~= state_after_words(a, ws, k));
    }
}

/// Running the machine one character at a time from the front.
proof fn lemma_feed_all_split_first(m: CaseModel, s: Seq<char>)
    requires
        s.len() >= 1,
    ensures
        case_feed_all(m, s) == case_feed_all(case_feed(m, s[0]), s.drop_first()),
{
    assert(s =~= seq![s[0]] + s.drop_first());
    lemma_feed_all_append(m, seq![s[0]], s.drop_first());
    assert(seq![s[0]].drop_last() =~= Seq::<char>::empty());
    assert(seq![s[0]].last() == s[0]);
    assert(case_feed_all(m, Seq::<char>::empty()) == m);
    assert(case_feed_all(m, seq![s[0]]) == case_feed(case_feed_all(m, seq![s[0]].drop_last()),
        seq![s[0]].last()));
    assert(case_feed_all(m, seq![s[0]]) == case_feed(m, s[0]));
}

/// A canonical identifier is a fixed point of the transformer.
proof fn lemma_replay(a: nat, ws: Seq<Seq<char>>, b: nat)
    requires
        words_wf(ws),
        ws.len() == 0 ==> a == 0,
    ensures
        spec_to_snake_case(render_canonical(a, ws, b)) == render_canonical(a, ws, b),
{
    if ws.len() == 0 {
        assert(spec_join(ws, seq!['_']) == Seq::<char>::empty());
        assert(render_canonical(a, ws, b) =~= spec_underscores(b));
        lemma_feed_underscores(case_init(), b);
        let m = case_feed_all(case_init(), spec_underscores(b));
        assert(case_result(m) =~= spec_underscores(b));
        assert(render_canonical(a, ws, b) == spec_underscores(b));
    } else {
        let n = ws.len() as int;
        lemma_replay_words(a, ws, n);
        assert(ws.take(n) =~= ws);
        let m = state_after_words(a, ws, n);
        let whole = spec_underscores(a) + spec_join(ws, seq!['_']);
        assert(case_feed_all(case_init(), whole) == m);
        lemma_feed_underscores_after(m, a, ws, b, whole);
    }
}

/// Closing a run: feeding the suffix and finishing reproduces the canonical
/// text.
proof fn lemma_feed_underscores_after(
    m: CaseModel,
    a: nat,
    ws: Seq<Seq<char>>,
    b: nat,
    whole: Seq<char>,
)
    requires
        words_wf(ws),
        ws.len() >= 1,
        m == state_after_words(a, ws, ws.len() as int),
        case_feed_all(case_init(), whole) == m,
        whole == spec_underscores(a) + spec_join(ws, seq!['_']),
    ensures
        spec_to_snake_case(whole + spec_underscores(b)) == render_canonical(a, ws, b),
{
    let n = ws.len() as int;
    lemma_feed_all_append(case_init(), whole, spec_underscores(b));
    if b == 0 {
        assert(spec_underscores(0) =~= Seq::<char>::empty());
        assert(whole + spec_underscores(b) =~= whole);
        assert(case_feed_all(case_init(), whole + spec_underscores(b)) == m);
        // finish from the Lower state
        let m1 = case_finish_part(m);
        if n == 1 {
            assert(m1.prefix =~= spec_underscores(a));
            assert(m1.parts =~= seq![ws[0]]);
            assert(seq![ws[0]] =~= ws);
        } else {
            assert(m1.parts =~= ws.take(n - 1).push(ws[n - 1]));
            assert(ws.take(n - 1).push(ws[n - 1]) =~= ws);
        }
        assert(case_result(m) =~= render_canonical(a, ws, b));
    } else {
        let fed = case_feed(m, '_');
        let m1 = case_finish_part(m);
        assert(fed == (CaseModel {
            underscores: m1.underscores + 1,
            state: CaseParserState::Sep,
            ..m1
        }));
        if n == 1 {
            assert(fed.prefix =~= spec_underscores(a));
            assert(fed.parts =~= seq![ws[0]]);
            assert(seq![ws[0]] =~= ws);
        } else {
            assert(fed.parts =~= ws.take(n - 1).push(ws[n - 1]));
            assert(ws.take(n - 1).push(ws[n - 1]) =~= ws);
        }
        lemma_feed_underscores(fed, (b - 1) as nat);
        lemma_feed_all_split_first(m, spec_underscores(b));
        assert(spec_underscores(b)[0] == '_');
        assert(spec_underscores(b).drop_first() =~= spec_underscores((b - 1) as nat));
        let fin = case_feed_all(m, spec_underscores(b));
        assert(fin == (CaseModel { underscores: b, ..fed }));
        assert(case_result(fin) =~= render_canonical(a, ws, b));
    }
}

/// The naming transformer is idempotent: transforming an already canonical
/// identifier returns it unchanged.
pub proof fn lemma_to_snake_case_idempotent(s: Seq<char>)
    ensures
        spec_to_snake_case(spec_to_snake_case(s)) == spec_to_snake_case(s),
{
    lemma_result_shape(s);
    let m = case_feed_all(case_init(), s);
    let (a, ws, b) = canon_of(m);
    lemma_replay(a, ws, b);
}

} // verus!
