//! From queued intents to engine commands.
//!
//! Once per frame the chrome empties its queue of intents and turns each into
//! a command for the engine.  The focused tab is looked up now, not when the
//! intent was queued: the focus may have moved in between.

use vstd::prelude::*;
use vstd::string::*;
use crate::state::{law_edits_then_confirm, new_tab_address, ChromeState, MinibrowserEvent};
use crate::webview::{
    events_view, opt_text, EmbedderEvent, EmbedderEventView, TraversalDirection, WebViewId,
};

verus! {

/// What becomes of one intent.
pub enum Step {
    /// It is stale and dropped: it needs a focused tab and there is none.
    Skip,
    /// It becomes this command.
    Emit(EmbedderEventView),
    /// The address bar does not hold an address: this intent and all that
    /// follow it are dropped.
    Halt,
}

/// What becomes of `event`, given the focused tab and the address that the
/// address bar's text parses to (`None` if it does not parse).
pub open spec fn dispatch_step(
    event: MinibrowserEvent,
    focused: Option<WebViewId>,
    address: Option<Seq<char>>,
) -> Step {
    match event {
        MinibrowserEvent::Go => match focused {
            Some(id) => match address {
                Some(url) => Step::Emit(EmbedderEventView::LoadUrl(id, url)),
                None => Step::Halt,
            },
            None => Step::Skip,
        },
        MinibrowserEvent::Back => match focused {
            Some(id) => Step::Emit(EmbedderEventView::Navigation(id, TraversalDirection::Back(1))),
            None => Step::Skip,
        },
        MinibrowserEvent::Forward => match focused {
            Some(id) => Step::Emit(
                EmbedderEventView::Navigation(id, TraversalDirection::Forward(1)),
            ),
            None => Step::Skip,
        },
        MinibrowserEvent::Reload => match focused {
            Some(id) => Step::Emit(EmbedderEventView::Reload(id)),
            None => Step::Skip,
        },
        MinibrowserEvent::NewWebView => Step::Emit(
            EmbedderEventView::NewWebView(new_tab_address()),
        ),
        MinibrowserEvent::CloseWebView(id) => Step::Emit(EmbedderEventView::CloseWebView(id)),
        MinibrowserEvent::FocusWebView(id) => Step::Emit(EmbedderEventView::FocusWebView(id)),
    }
}

/// The outcome of emptying the queue.
pub struct Dispatch {
    /// The commands for the engine, in the order of the intents they came
    /// from.
    pub commands: Seq<EmbedderEventView>,
    /// Whether a new tab was asked for, which ends a pending edit of the
    /// address bar.
    pub opened_tab: bool,
    /// Whether the pass stopped early at a navigation whose address did not
    /// parse.
    pub halted: bool,
}

/// The outcome of emptying `queue`, oldest intent first.
pub open spec fn dispatch(
    queue: Seq<MinibrowserEvent>,
    focused: Option<WebViewId>,
    address: Option<Seq<char>>,
) -> Dispatch
    decreases queue.len(),
{
    if queue.len() == 0 {
        Dispatch { commands: Seq::empty(), opened_tab: false, halted: false }
    } else {
        match dispatch_step(queue.first(), focused, address) {
            Step::Halt => Dispatch { commands: Seq::empty(), opened_tab: false, halted: true },
            Step::Skip => dispatch(queue.drop_first(), focused, address),
            Step::Emit(command) => {
                let rest = dispatch(queue.drop_first(), focused, address);
                Dispatch {
                    commands: seq![command] + rest.commands,
                    opened_tab: queue.first() == MinibrowserEvent::NewWebView || rest.opened_tab,
                    halted: rest.halted,
                }
            },
        }
    }
}

/// No intent is dispatched twice: a pass yields at most as many commands as
/// intents were queued.
pub proof fn law_dispatch_never_multiplies(
    queue: Seq<MinibrowserEvent>,
    focused: Option<WebViewId>,
    address: Option<Seq<char>>,
)
    ensures
        dispatch(queue, focused, address).commands.len() <= queue.len(),
    decreases queue.len(),
{
    if queue.len() > 0 {
        law_dispatch_never_multiplies(queue.drop_first(), focused, address);
    }
}

/// With a tab focused and an address bar that parses, nothing is dropped:
/// every intent yields exactly one command and the pass runs to the end.
pub proof fn law_dispatch_drops_nothing(
    queue: Seq<MinibrowserEvent>,
    focused: WebViewId,
    address: Seq<char>,
)
    ensures
        dispatch(queue, Some(focused), Some(address)).commands.len() == queue.len(),
        !dispatch(queue, Some(focused), Some(address)).halted,
        forall|i: int|
            0 <= i < queue.len() ==> dispatch_step(queue[i], Some(focused), Some(address))
                == Step::Emit(
                #[trigger] dispatch(queue, Some(focused), Some(address)).commands[i],
            ),
    decreases queue.len(),
{
    if queue.len() > 0 {
        let rest = queue.drop_first();
        law_dispatch_drops_nothing(rest, focused, address);
        let all = dispatch(queue, Some(focused), Some(address));
        let tail = dispatch(rest, Some(focused), Some(address));
        assert forall|i: int| 0 <= i < queue.len() implies dispatch_step(
            queue[i],
            Some(focused),
            Some(address),
        ) == Step::Emit(#[trigger] all.commands[i]) by {
            if i > 0 {
                assert(queue[i] == rest[i - 1]);
                assert(all.commands[i] == tail.commands[i - 1]);
            }
        }
    }
}

/// After any run of edits to the address bar and a confirmation, the next
/// dispatch ends with the command to load, in the focused tab, the address
/// that the last text typed stands for.
pub proof fn law_confirmed_edit_is_loaded(
    state: ChromeState,
    texts: Seq<Seq<char>>,
    focused: WebViewId,
    address: Seq<char>,
)
    ensures
        dispatch(
            state.edit_all(texts).confirm().event_queue,
            Some(focused),
            Some(address),
        ).commands.last() == EmbedderEventView::LoadUrl(focused, address),
{
    let queue = state.edit_all(texts).confirm().event_queue;
    law_edits_then_confirm(state, texts);
    law_dispatch_drops_nothing(queue, focused, address);
    assert(queue[queue.len() - 1] == MinibrowserEvent::Go);
    let commands = dispatch(queue, Some(focused), Some(address)).commands;
    assert(dispatch_step(queue[queue.len() - 1], Some(focused), Some(address)) == Step::Emit(
        commands[queue.len() - 1],
    ));
}

/// Turns one intent into its command.
pub fn dispatch_event(
    event: MinibrowserEvent,
    focused: Option<WebViewId>,
    address: &Option<String>,
) -> (step: Result<Option<EmbedderEvent>, ()>)
    ensures
        match dispatch_step(event, focused, opt_text(*address)) {
            Step::Skip => step == Ok::<Option<EmbedderEvent>, ()>(None),
            Step::Emit(command) => step matches Ok(Some(made)) && made@ == command,
            Step::Halt => step is Err,
        },
{
    match event {
        MinibrowserEvent::Go => match focused {
            Some(id) => match address {
                Some(url) => Ok(Some(EmbedderEvent::LoadUrl(id, url.clone()))),
                None => Err(()),
            },
            None => Ok(None),
        },
        MinibrowserEvent::Back => match focused {
            Some(id) => Ok(Some(EmbedderEvent::Navigation(id, TraversalDirection::Back(1)))),
            None => Ok(None),
        },
        MinibrowserEvent::Forward => match focused {
            Some(id) => Ok(Some(EmbedderEvent::Navigation(id, TraversalDirection::Forward(1)))),
            None => Ok(None),
        },
        MinibrowserEvent::Reload => match focused {
            Some(id) => Ok(Some(EmbedderEvent::Reload(id))),
            None => Ok(None),
        },
        MinibrowserEvent::NewWebView => Ok(
            Some(EmbedderEvent::NewWebView(String::from_str("moto:newtab"))),
        ),
        MinibrowserEvent::CloseWebView(id) => Ok(Some(EmbedderEvent::CloseWebView(id))),
        MinibrowserEvent::FocusWebView(id) => Ok(Some(EmbedderEvent::FocusWebView(id))),
    }
}

/// Turns the intents of `queue` into commands and appends them to `out`.
///
/// Returns whether a new tab was asked for and whether the pass ran to the
/// end.
pub fn dispatch_queue(
    queue: &Vec<MinibrowserEvent>,
    focused: Option<WebViewId>,
    address: &Option<String>,
    out: &mut Vec<EmbedderEvent>,
) -> (outcome: (bool, bool))
    ensures
        events_view(final(out)@) == events_view(old(out)@) + dispatch(
            queue@,
            focused,
            opt_text(*address),
        ).commands,
        outcome.0 == dispatch(queue@, focused, opt_text(*address)).opened_tab,
        outcome.1 == !dispatch(queue@, focused, opt_text(*address)).halted,
{
    let ghost total = dispatch(queue@, focused, opt_text(*address));
    let ghost before = events_view(out@);
    let ghost mut emitted: Seq<EmbedderEventView> = Seq::empty();
    let mut opened_tab = false;
    let mut completed = true;
    let mut i: usize = 0;
    proof {
        assert(queue@.skip(0) =~= queue@);
        assert(before + emitted =~= before);
    }
    while i < queue.len()
        invariant_except_break
            i <= queue.len(),
            completed,
            total == dispatch(queue@, focused, opt_text(*address)),
            events_view(out@) == before + emitted,
            total.commands == emitted + dispatch(
                queue@.skip(i as int),
                focused,
                opt_text(*address),
            ).commands,
            total.opened_tab == (opened_tab || dispatch(
                queue@.skip(i as int),
                focused,
                opt_text(*address),
            ).opened_tab),
            total.halted == dispatch(queue@.skip(i as int), focused, opt_text(*address)).halted,
        ensures
            events_view(out@) == before + total.commands,
            opened_tab == total.opened_tab,
            completed == !total.halted,
        decreases queue.len() - i,
    {
        let ghost rest = queue@.skip(i as int);
        proof {
            assert(rest.first() == queue@[i as int]);
            assert(rest.drop_first() =~= queue@.skip(i + 1));
        }
        match dispatch_event(queue[i], focused, address) {
            Ok(Some(command)) => {
                if queue[i] == MinibrowserEvent::NewWebView {
                    opened_tab = true;
                }
                let ghost out_before = out@;
                let ghost made = command@;
                out.push(command);
                proof {
                    assert(events_view(out@) =~= events_view(out_before).push(made));
                    let tail = dispatch(queue@.skip(i + 1), focused, opt_text(*address));
                    assert(emitted + (seq![made] + tail.commands) =~= emitted.push(made)
                        + tail.commands);
                    emitted = emitted.push(made);
                    assert(before + emitted =~= (before + emitted.drop_last()).push(made));
                }
            },
            Ok(None) => {},
            Err(_) => {
                completed = false;
                proof {
                    assert(emitted + Seq::<EmbedderEventView>::empty() =~= emitted);
                }
                break ;
            },
        }
        i += 1;
    }
    proof {
        if completed {
            assert(queue@.skip(queue@.len() as int) =~= Seq::<MinibrowserEvent>::empty());
            assert(emitted + Seq::<EmbedderEventView>::empty() =~= emitted);
        }
    }
    (opened_tab, completed)
}

} // verus!
