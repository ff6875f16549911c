use vstd::prelude::*;
use crate::results::{SearchResult, ContextOption, windowed_of, plain_of, partitioned, ranked, MAX_RESULTS};
use crate::protocol::{RequestModel, ResponseModel};
use crate::session::{
    KeyboardNav, SessionModel, MessageModel, EffectModel, session_wf, transition, hidden, is_hidden, main_shown,
};

verus! {

/// Ranking: the shown results are the windowed results in their order, then the
/// others in their order, cut to at most ten; no windowed result ever follows
/// one without a window.
pub proof fn ranking_law(s: Seq<SearchResult>)
    ensures
        ranked(s).len() == if s.len() <= MAX_RESULTS { s.len() } else { MAX_RESULTS as nat },
        ranked(s) == (windowed_of(s) + plain_of(s)).take(ranked(s).len() as int),
        forall|k: int| 0 <= k < windowed_of(s).len() ==> #[trigger] windowed_of(s)[k].windowed(),
        forall|k: int| 0 <= k < plain_of(s).len() ==> !#[trigger] plain_of(s)[k].windowed(),
        forall|i: int, j: int|
            0 <= i < j < ranked(s).len() && (#[trigger] ranked(s)[j]).windowed()
                ==> (#[trigger] ranked(s)[i]).windowed(),
{
    crate::results::lemma_ranked_len(s);
    let p = partitioned(s);
    let w = windowed_of(s);
    let q = plain_of(s);
    assert forall|k: int| 0 <= k < w.len() implies #[trigger] w[k].windowed() by {
        s.lemma_filter_pred(|r: SearchResult| r.windowed(), k);
    }
    assert forall|k: int| 0 <= k < q.len() implies !#[trigger] q[k].windowed() by {
        s.lemma_filter_pred(|r: SearchResult| !r.windowed(), k);
    }
    assert(ranked(s) =~= p.take(ranked(s).len() as int));
    assert forall|i: int, j: int|
        0 <= i < j < ranked(s).len() && (#[trigger] ranked(s)[j]).windowed()
            implies (#[trigger] ranked(s)[i]).windowed() by {
        assert(ranked(s)[j] == p[j]);
        assert(ranked(s)[i] == p[i]);
        if j >= w.len() {
            assert(p[j] == q[j - w.len()]);
        }
        assert(p[i] == w[i]);
    }
}

/// Hiding a hidden launcher clears its input and destroys no surface; apart
/// from the input the session stays as it was.
pub proof fn hide_idempotence_law(s: SessionModel)
    requires
        session_wf(s),
        is_hidden(s),
    ensures
        hidden(s).0.input.len() == 0,
        hidden(s).0 == (SessionModel { input: Seq::empty(), ..s }),
        forall|k: int| 0 <= k < hidden(s).1.len() ==>
            !(#[trigger] hidden(s).1[k] is DestroyMain) && !(hidden(s).1[k] is DestroyMenu),
{
    let e = hidden(s).1;
    assert(e =~= crate::session::sent(s, RequestModel::Close)
        + crate::session::sent(s, RequestModel::Search(Seq::empty())));
}

/// Context toggle: asking for a result's menu and getting options opens one
/// menu at the pointer; asking again, with no response between, closes it.
pub proof fn context_toggle_law(s: SessionModel, i: usize, options: Seq<ContextOption>)
    requires
        session_wf(s),
        main_shown(s),
        s.menu is None,
        s.connected,
        s.cursor is Some,
        i < s.items.len(),
        options.len() > 0,
    ensures
        ({
            let id = s.items[i as int].id;
            let first = transition(s, MessageModel::Context(i));
            let opened = transition(first.0, MessageModel::Response(ResponseModel::Context { id, options }));
            let second = transition(opened.0, MessageModel::Context(i));
            &&& first.0 == s
            &&& first.1 == seq![EffectModel::Send(RequestModel::Context(id))]
            &&& opened.0.menu == Some((id, options))
            &&& opened.1 == seq![EffectModel::CreateMenu(s.cursor.unwrap().0, s.cursor.unwrap().1)]
            &&& second.0.menu is None
            &&& main_shown(second.0)
            &&& second.1 == seq![EffectModel::DestroyMenu]
        }),
{
    let id = s.items[i as int].id;
    let first = transition(s, MessageModel::Context(i));
    assert(first.1 =~= seq![EffectModel::Send(RequestModel::Context(id))]);
    let opened = transition(first.0, MessageModel::Response(ResponseModel::Context { id, options }));
    assert(opened.1 =~= seq![EffectModel::CreateMenu(s.cursor.unwrap().0, s.cursor.unwrap().1)]);
}

/// Runs the controller over a sequence of actions: the last state and all the
/// effects, in order.
pub open spec fn run(s: SessionModel, ms: Seq<MessageModel>) -> (SessionModel, Seq<EffectModel>)
    decreases ms.len(),
{
    if ms.len() == 0 {
        (s, Seq::empty())
    } else {
        let step = transition(s, ms[0]);
        let rest = run(step.0, ms.skip(1));
        (rest.0, step.1 + rest.1)
    }
}

pub open spec fn typed(vs: Seq<Seq<char>>) -> Seq<MessageModel> {
    vs.map_values(|v: Seq<char>| MessageModel::InputChanged(v))
}

pub open spec fn searches(vs: Seq<Seq<char>>) -> Seq<EffectModel> {
    vs.map_values(|v: Seq<char>| EffectModel::Send(RequestModel::Search(v)))
}

/// Keystroke fidelity: once the backend has started, each change of the input
/// sends one search with exactly the new text, in the order typed, and the
/// input holds the last text.
pub proof fn keystroke_fidelity_law(s: SessionModel, vs: Seq<Seq<char>>)
    requires
        s.connected,
    ensures
        run(s, typed(vs)).1 == searches(vs),
        vs.len() > 0 ==> run(s, typed(vs)).0.input == vs.last(),
        run(s, typed(vs)).0.connected,
    decreases vs.len(),
{
    if vs.len() > 0 {
        let t = SessionModel { input: vs[0], ..s };
        assert(typed(vs).skip(1) =~= typed(vs.skip(1)));
        assert(transition(s, typed(vs)[0]).1 =~= seq![EffectModel::Send(RequestModel::Search(vs[0]))]);
        keystroke_fidelity_law(t, vs.skip(1));
        assert(searches(vs) =~= seq![EffectModel::Send(RequestModel::Search(vs[0]))] + searches(vs.skip(1)));
        if vs.len() > 1 {
            assert(vs.skip(1).last() == vs.last());
        } else {
            assert(typed(vs.skip(1)) =~= Seq::<MessageModel>::empty());
        }
    } else {
        assert(searches(vs) =~= Seq::<EffectModel>::empty());
    }
}

/// Index bound: activating a position past the end of the list sends nothing
/// and changes nothing.
pub proof fn index_bound_law(s: SessionModel, i: usize)
    requires
        i >= s.items.len(),
    ensures
        transition(s, MessageModel::Activate(i)) == (s, Seq::<EffectModel>::empty()),
{
}

/// Escape priority: with a menu open, Escape closes only the menu and the main
/// surface stays; with none open, it runs the full hide.
pub proof fn escape_priority_law(s: SessionModel)
    requires
        session_wf(s),
    ensures
        s.menu is Some ==> transition(s, MessageModel::Hide)
            == (SessionModel { menu: None, ..s }, seq![EffectModel::DestroyMenu]),
        s.menu is Some ==> main_shown(transition(s, MessageModel::Hide).0),
        s.menu is None ==> transition(s, MessageModel::Hide) == hidden(s),
{
}

/// At most one menu: an action creates a menu surface only as its last effect,
/// only when the new state holds a menu, and, where a menu was open, right
/// after destroying that one.
pub proof fn single_menu_law(s: SessionModel, m: MessageModel)
    requires
        session_wf(s),
    ensures
        forall|k: int| 0 <= k < transition(s, m).1.len() && (#[trigger] transition(s, m).1[k]) is CreateMenu
            ==> k == transition(s, m).1.len() - 1
                && transition(s, m).0.menu is Some
                && (s.menu is Some ==> k >= 1 && transition(s, m).1[k - 1] is DestroyMenu),
{
    let e = transition(s, m).1;
    let h = hidden(s).1;
    assert forall|k: int| 0 <= k < h.len() implies !(#[trigger] h[k] is CreateMenu) by {
        let a = crate::session::sent(s, RequestModel::Close);
        let b = crate::session::sent(s, RequestModel::Search(Seq::empty()));
        let c = if s.menu is Some { seq![EffectModel::DestroyMenu] } else { Seq::<EffectModel>::empty() };
        let d = if main_shown(s) { seq![EffectModel::DestroyMain] } else { Seq::<EffectModel>::empty() };
        assert(h == a + b + c + d);
        if k < a.len() {
        } else if k < a.len() + b.len() {
        } else if k < a.len() + b.len() + c.len() {
        } else {
        }
    }
    match m {
        MessageModel::ActivationToken(t, c) => {
            assert forall|k: int| 0 <= k < e.len() implies !(#[trigger] e[k] is CreateMenu) by {
                if k >= 1 {
                    assert(e[k] == h[k - 1]);
                }
            }
        },
        MessageModel::MenuButton(i, o) => {
            let c = crate::session::menu_closed(s);
            let r = crate::session::sent(s, RequestModel::ActivateContext(i, o));
            assert forall|k: int| 0 <= k < e.len() implies !(#[trigger] e[k] is CreateMenu) by {
                if k < c.1.len() {
                } else {
                    assert(e[k] == r[k - c.1.len()]);
                }
            }
        },
        MessageModel::KeyboardNav(KeyboardNav::Unfocus) => {
            let r = crate::session::sent(s, RequestModel::Search(Seq::empty()));
            assert forall|k: int| 0 <= k < e.len() implies !(#[trigger] e[k] is CreateMenu) by {
                if k < r.len() {
                }
            }
        },
        _ => {},
    }
}

} // verus!
