use vstd::prelude::*;

verus! {

/// Messages for the editable group name.
#[derive(Debug)]
pub enum GroupNameMsg {
    /// Start editing.
    StartEdit,
    /// Change the pending value to the given value.
    UpdatePending { pending: String },
    /// Save the value by passing it to the parent.
    CommitEdit,
}

/// The state of an editable name: shown, or being edited with a draft. While
/// editing, `focused` records that the input has been given focus once.
#[derive(Debug)]
pub enum NameState {
    Viewing,
    Editing { draft: String, focused: bool },
}

/// An editable label for a group's name.
#[derive(Debug)]
pub struct GroupName {
    pub state: NameState,
}

/// The state of an editable name, with the draft as characters.
pub enum NameMode {
    Viewing,
    Editing { draft: Seq<char>, focused: bool },
}

/// What can happen to an editable name.
pub enum NameEvent {
    /// The edit affordance was used.
    Start,
    /// The input now holds the given text.
    Input(Seq<char>),
    /// The edit was submitted.
    Commit,
    /// The owner handed the field new properties.
    PropsChanged,
    /// A render finished; the flag says whether the input element exists.
    Rendered(bool),
}

impl View for NameState {
    type V = NameMode;

    open spec fn view(&self) -> NameMode {
        match self {
            NameState::Viewing => NameMode::Viewing,
            NameState::Editing { draft, focused } => NameMode::Editing { draft: draft@, focused: *focused },
        }
    }
}

impl View for GroupName {
    type V = NameMode;

    open spec fn view(&self) -> NameMode {
        self.state@
    }
}

/// The event that a message stands for.
pub open spec fn event_of(msg: GroupNameMsg) -> NameEvent {
    match msg {
        GroupNameMsg::StartEdit => NameEvent::Start,
        GroupNameMsg::UpdatePending { pending } => NameEvent::Input(pending@),
        GroupNameMsg::CommitEdit => NameEvent::Commit,
    }
}

/// One transition of an editable name whose owner calls it `name`: the next
/// state, and the name handed to the owner's rename, if any.
pub open spec fn step(s: NameMode, name: Seq<char>, ev: NameEvent) -> (NameMode, Option<Seq<char>>) {
    match ev {
        NameEvent::Start => (NameMode::Editing { draft: name, focused: false }, None),
        NameEvent::Input(text) => (
            NameMode::Editing {
                draft: text,
                focused: match s {
                    NameMode::Editing { focused, .. } => focused,
                    NameMode::Viewing => false,
                },
            },
            None,
        ),
        NameEvent::Commit => match s {
            NameMode::Editing { draft, .. } => (NameMode::Viewing, Some(draft)),
            NameMode::Viewing => (s, None),
        },
        NameEvent::PropsChanged => (NameMode::Viewing, None),
        NameEvent::Rendered(present) => match s {
            NameMode::Editing { draft, focused } => if present {
                (NameMode::Editing { draft, focused: true }, None)
            } else {
                (s, None)
            },
            NameMode::Viewing => (s, None),
        },
    }
}

/// The state after a series of events, and every name handed to rename, in order.
pub open spec fn run(s: NameMode, name: Seq<char>, evs: Seq<NameEvent>) -> (NameMode, Seq<Seq<char>>)
    decreases evs.len(),
{
    if evs.len() == 0 {
        (s, Seq::empty())
    } else {
        let (s1, out) = step(s, name, evs[0]);
        let (s2, outs) = run(s1, name, evs.drop_first());
        (
            s2,
            match out {
                Some(o) => seq![o] + outs,
                None => outs,
            },
        )
    }
}

/// Whether finishing a render should give the input focus now.
pub open spec fn focus_due(s: NameMode, present: bool) -> bool {
    present && (s matches NameMode::Editing { focused, .. } && !focused)
}

pub open spec fn text_of(o: Option<String>) -> Option<Seq<char>> {
    match o {
        Some(t) => Some(t@),
        None => None,
    }
}

impl GroupName {
    /// A field that shows its name.
    pub fn new() -> (r: GroupName)
        ensures
            r@ == NameMode::Viewing,
    {
        GroupName { state: NameState::Viewing }
    }

    /// Handles `msg` for a field whose owner calls it `name`. The result says
    /// whether to render again, and what to hand to the owner's rename.
    pub fn update(&mut self, name: &str, msg: GroupNameMsg) -> (r: (bool, Option<String>))
        ensures
            final(self)@ == step(old(self)@, name@, event_of(msg)).0,
            text_of(r.1) == step(old(self)@, name@, event_of(msg)).1,
            r.0 == !(msg is CommitEdit),
    {
        match msg {
            GroupNameMsg::StartEdit => {
                self.state = NameState::Editing { draft: name.to_owned(), focused: false };
                (true, None)
            },
            GroupNameMsg::UpdatePending { pending } => {
                let focused = match &self.state {
                    NameState::Editing { focused, .. } => *focused,
                    NameState::Viewing => false,
                };
                self.state = NameState::Editing { draft: pending, focused };
                (true, None)
            },
            GroupNameMsg::CommitEdit => {
                let mut old_state = NameState::Viewing;
                std::mem::swap(&mut self.state, &mut old_state);
                match old_state {
                    NameState::Editing { draft, .. } => (false, Some(draft)),
                    NameState::Viewing => (false, None),
                }
            },
        }
    }

    /// The owner handed new properties: any draft is dropped.
    pub fn changed(&mut self) -> (r: bool)
        ensures
            final(self)@ == step(old(self)@, Seq::empty(), NameEvent::PropsChanged).0,
            r,
    {
        self.state = NameState::Viewing;
        true
    }

    /// A render finished; `input_present` says whether the input element
    /// exists. The result says whether to focus it now, which happens once per
    /// edit.
    pub fn rendered(&mut self, input_present: bool) -> (r: bool)
        ensures
            final(self)@ == step(old(self)@, Seq::empty(), NameEvent::Rendered(input_present)).0,
            r == focus_due(old(self)@, input_present),
    {
        match &mut self.state {
            NameState::Editing { focused, .. } => {
                if input_present && !*focused {
                    *focused = true;
                    true
                } else {
                    false
                }
            },
            NameState::Viewing => false,
        }
    }
}

/// The events of typing each text of `typed` in turn.
pub open spec fn typing(typed: Seq<Seq<char>>) -> Seq<NameEvent> {
    typed.map_values(|t: Seq<char>| NameEvent::Input(t))
}

/// While editing, typing and then submitting hands exactly one name to rename:
/// the last text typed, or the draft when nothing was typed. The field then
/// shows its name again.
pub proof fn lemma_typing_then_commit(draft: Seq<char>, focused: bool, name: Seq<char>, typed: Seq<Seq<char>>)
    ensures
        run(
            NameMode::Editing { draft, focused },
            name,
            typing(typed) + seq![NameEvent::Commit],
        ) == (NameMode::Viewing, seq![if typed.len() == 0 { draft } else { typed.last() }]),
    decreases typed.len(),
{
    let evs = typing(typed) + seq![NameEvent::Commit];
    reveal_with_fuel(run, 2);
    if typed.len() == 0 {
        assert(evs =~= seq![NameEvent::Commit]);
        assert(evs.drop_first() =~= Seq::<NameEvent>::empty());
        assert(seq![draft] + Seq::<Seq<char>>::empty() =~= seq![draft]);
    } else {
        assert(evs[0] == NameEvent::Input(typed[0]));
        assert(evs.drop_first() =~= typing(typed.drop_first()) + seq![NameEvent::Commit]);
        lemma_typing_then_commit(typed[0], focused, name, typed.drop_first());
    }
}

/// Showing a field, starting an edit, typing and submitting, with renders in
/// between and no change of properties, hands exactly one name to rename: the
/// last text typed, or the unchanged name when nothing was typed.
pub proof fn lemma_edit_round_trip(name: Seq<char>, present: bool, typed: Seq<Seq<char>>)
    ensures
        run(
            NameMode::Viewing,
            name,
            seq![NameEvent::Rendered(present), NameEvent::Start, NameEvent::Rendered(present)]
                + typing(typed) + seq![NameEvent::Commit],
        ) == (NameMode::Viewing, seq![if typed.len() == 0 { name } else { typed.last() }]),
{
    let tail = typing(typed) + seq![NameEvent::Commit];
    reveal_with_fuel(run, 4);
    let evs = seq![NameEvent::Rendered(present), NameEvent::Start, NameEvent::Rendered(present)]
        + typing(typed) + seq![NameEvent::Commit];
    assert(evs[0] == NameEvent::Rendered(present));
    assert(evs.drop_first()[0] == NameEvent::Start);
    assert(evs.drop_first().drop_first()[0] == NameEvent::Rendered(present));
    assert(evs.drop_first().drop_first().drop_first() =~= tail);
    lemma_typing_then_commit(name, present, name, typed);
    let s1 = step(NameMode::Viewing, name, evs[0]).0;
    let s2 = step(s1, name, evs.drop_first()[0]).0;
    let s3 = step(s2, name, evs.drop_first().drop_first()[0]).0;
    assert(s3 == NameMode::Editing { draft: name, focused: present });
}

/// New properties in the middle of an edit drop the draft: the field shows its
/// name again, and a later submit hands nothing to rename.
pub proof fn lemma_props_change_discards_draft(s: NameMode, name: Seq<char>)
    ensures
        run(s, name, seq![NameEvent::PropsChanged]).0 == NameMode::Viewing,
        run(s, name, seq![NameEvent::PropsChanged, NameEvent::Commit]) == (
            NameMode::Viewing,
            Seq::<Seq<char>>::empty(),
        ),
{
    reveal_with_fuel(run, 3);
    let one = seq![NameEvent::PropsChanged];
    let two = seq![NameEvent::PropsChanged, NameEvent::Commit];
    assert(one.drop_first() =~= Seq::<NameEvent>::empty());
    assert(two.drop_first() =~= seq![NameEvent::Commit]);
    assert(two.drop_first().drop_first() =~= Seq::<NameEvent>::empty());
}

/// What the label shows for `name`, and whether that is the placeholder for
/// an empty name.
pub fn display_name(name: &str) -> (r: (String, bool))
    ensures
        name@.len() == 0 ==> r.0@ == "unnamed"@ && r.1,
        name@.len() > 0 ==> r.0@ == name@ && !r.1,
{
    if name.is_empty() {
        ("unnamed".to_owned(), true)
    } else {
        (name.to_owned(), false)
    }
}

} // verus!
