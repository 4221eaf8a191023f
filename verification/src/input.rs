//! Filter and preference inputs: named settings with a current state, which
//! a caller updates by name.

use crate::text::same_text;
use vstd::prelude::*;
use vstd::std_specs::cmp::PartialEqSpecImpl;

verus! {

/// One of the values a selection offers.
#[derive(Debug)]
pub enum InputType {
    /// A text.
    Text(String),
    /// A number, held as its decimal text.
    Number(String),
    /// A truth value.
    Boolean(bool),
}

/// What an `InputType` holds.
pub enum InputTypeView {
    Text(Seq<char>),
    Number(Seq<char>),
    Boolean(bool),
}

/// A named setting and its current state.
#[derive(Debug)]
#[allow(inconsistent_fields)]
pub enum Input {
    /// Free text; `state` is the text entered, if any.
    Text { name: String, state: Option<String> },
    /// One of `values`; `state` is the index of the chosen one, if any.
    Select { name: String, values: Vec<InputType>, state: Option<i64> },
    /// Any number of `values`; `state` holds the indices of the chosen ones.
    MultiSelect { name: String, values: Vec<InputType>, state: Vec<i64> },
}

/// What an `Input` holds.
#[allow(inconsistent_fields)]
pub enum InputView {
    Text { name: Seq<char>, state: Option<Seq<char>> },
    Select { name: Seq<char>, values: Seq<InputTypeView>, state: Option<i64> },
    MultiSelect { name: Seq<char>, values: Seq<InputTypeView>, state: Seq<i64> },
}

impl DeepView for InputType {
    type V = InputTypeView;

    open spec fn deep_view(&self) -> InputTypeView {
        match self {
            InputType::Text(s) => InputTypeView::Text(s@),
            InputType::Number(s) => InputTypeView::Number(s@),
            InputType::Boolean(b) => InputTypeView::Boolean(*b),
        }
    }
}

impl DeepView for Input {
    type V = InputView;

    open spec fn deep_view(&self) -> InputView {
        match self {
            Input::Text { name, state } => InputView::Text {
                name: name@,
                state: state.deep_view(),
            },
            Input::Select { name, values, state } => InputView::Select {
                name: name@,
                values: values.deep_view(),
                state: *state,
            },
            Input::MultiSelect { name, values, state } => InputView::MultiSelect {
                name: name@,
                values: values.deep_view(),
                state: state@,
            },
        }
    }
}

impl InputView {
    /// The name of the input.
    pub open spec fn name(self) -> Seq<char> {
        match self {
            InputView::Text { name, .. } => name,
            InputView::Select { name, .. } => name,
            InputView::MultiSelect { name, .. } => name,
        }
    }

    /// Whether the two inputs are the same setting: of one kind and with one
    /// name, whatever their states are.
    pub open spec fn same_setting(self, other: InputView) -> bool {
        match (self, other) {
            (InputView::Text { name: a, .. }, InputView::Text { name: b, .. }) => a == b,
            (InputView::Select { name: a, .. }, InputView::Select { name: b, .. }) => a == b,
            (InputView::MultiSelect { name: a, .. }, InputView::MultiSelect { name: b, .. }) => a
                == b,
            _ => false,
        }
    }
}

/// The value at `index` in `values`, where the index names one.
pub open spec fn value_at(values: Seq<InputTypeView>, index: i64) -> Option<InputTypeView> {
    if 0 <= index < values.len() {
        Some(values[index as int])
    } else {
        None
    }
}

/// The text values of a selection, in order.
pub open spec fn text_values(names: Seq<Seq<char>>) -> Seq<InputTypeView> {
    Seq::new(names.len(), |i: int| InputTypeView::Text(names[i]))
}

/// A free text without a state.
pub open spec fn blank_text(name: Seq<char>) -> InputView {
    InputView::Text { name, state: None }
}

/// A selection among texts, with nothing chosen.
pub open spec fn blank_select(name: Seq<char>, names: Seq<Seq<char>>) -> InputView {
    InputView::Select { name, values: text_values(names), state: None }
}

/// The views of the texts, in order.
pub open spec fn views(names: Seq<&str>) -> Seq<Seq<char>> {
    Seq::new(names.len(), |i: int| names[i]@)
}

impl Clone for InputType {
    fn clone(&self) -> (out: InputType)
        ensures
            out.deep_view() == self.deep_view(),
    {
        match self {
            InputType::Text(s) => InputType::Text(s.clone()),
            InputType::Number(s) => InputType::Number(s.clone()),
            InputType::Boolean(b) => InputType::Boolean(*b),
        }
    }
}

/// A copy of `values`.
fn clone_values(values: &Vec<InputType>) -> (out: Vec<InputType>)
    ensures
        out.deep_view() == values.deep_view(),
{
    let mut out: Vec<InputType> = Vec::new();
    let mut i: usize = 0;
    while i < values.len()
        invariant
            0 <= i <= values.len(),
            out.len() == i,
            forall|j: int| 0 <= j < i ==> out@[j].deep_view() == values@[j].deep_view(),
        decreases values.len() - i,
    {
        out.push(values[i].clone());
        i += 1;
    }
    proof {
        assert(out.deep_view() =~= values.deep_view());
    }
    out
}

impl Clone for Input {
    fn clone(&self) -> (out: Input)
        ensures
            out.deep_view() == self.deep_view(),
    {
        match self {
            Input::Text { name, state } => {
                let state = match state {
                    Some(s) => Some(s.clone()),
                    None => None,
                };
                Input::Text { name: name.clone(), state }
            },
            Input::Select { name, values, state } => Input::Select {
                name: name.clone(),
                values: clone_values(values),
                state: *state,
            },
            Input::MultiSelect { name, values, state } => {
                let chosen = state.clone();
                proof {
                    assert(chosen@ =~= state@);
                }
                Input::MultiSelect { name: name.clone(), values: clone_values(values), state: chosen }
            },
        }
    }
}

impl PartialEq for Input {
    /// Two inputs are equal when they are the same setting.
    fn eq(&self, other: &Input) -> (same: bool) {
        match (self, other) {
            (Input::Text { name: a, .. }, Input::Text { name: b, .. }) => same_text(
                a.as_str(),
                b.as_str(),
            ),
            (Input::Select { name: a, .. }, Input::Select { name: b, .. }) => same_text(
                a.as_str(),
                b.as_str(),
            ),
            (Input::MultiSelect { name: a, .. }, Input::MultiSelect { name: b, .. }) => same_text(
                a.as_str(),
                b.as_str(),
            ),
            _ => false,
        }
    }
}

impl PartialEqSpecImpl for Input {
    open spec fn obeys_eq_spec() -> bool {
        true
    }

    open spec fn eq_spec(&self, other: &Input) -> bool {
        self.deep_view().same_setting(other.deep_view())
    }
}

impl Input {
    /// The name of the input.
    pub fn name(&self) -> (out: String)
        ensures
            out@ == self.deep_view().name(),
    {
        match self {
            Input::Text { name, .. } => name.clone(),
            Input::Select { name, .. } => name.clone(),
            Input::MultiSelect { name, .. } => name.clone(),
        }
    }
}

/// The text values of a selection, in order.
pub fn make_values(names: Vec<&str>) -> (out: Vec<InputType>)
    ensures
        out.deep_view() == text_values(views(names@)),
{
    let mut out: Vec<InputType> = Vec::new();
    let mut i: usize = 0;
    while i < names.len()
        invariant
            0 <= i <= names.len(),
            out.len() == i,
            forall|j: int| 0 <= j < i ==> out@[j].deep_view() == InputTypeView::Text(names@[j]@),
        decreases names.len() - i,
    {
        out.push(InputType::Text(names[i].to_owned()));
        i += 1;
    }
    proof {
        assert(out.deep_view() =~= text_values(views(names@)));
    }
    out
}

/// A free text without a state.
pub fn make_text(name: &str) -> (out: Input)
    ensures
        out.deep_view() == blank_text(name@),
{
    Input::Text { name: name.to_owned(), state: None }
}

/// A selection among texts, with nothing chosen.
pub fn make_select(name: &str, names: Vec<&str>) -> (out: Input)
    ensures
        out.deep_view() == blank_select(name@, views(names@)),
{
    Input::Select { name: name.to_owned(), values: make_values(names), state: None }
}

/// A copy of `inputs`.
pub fn clone_inputs(inputs: &Vec<Input>) -> (out: Vec<Input>)
    ensures
        out.deep_view() == inputs.deep_view(),
{
    let mut out: Vec<Input> = Vec::new();
    let mut i: usize = 0;
    while i < inputs.len()
        invariant
            0 <= i <= inputs.len(),
            out.len() == i,
            forall|j: int| 0 <= j < i ==> out@[j].deep_view() == inputs@[j].deep_view(),
        decreases inputs.len() - i,
    {
        out.push(inputs[i].clone());
        i += 1;
    }
    proof {
        assert(out.deep_view() =~= inputs.deep_view());
    }
    out
}

/// The state of one stored input after the updates: the last update that is
/// the same setting, or the stored input itself where there is none.
pub open spec fn merged_one(stored: InputView, updates: Seq<InputView>) -> InputView
    decreases updates.len(),
{
    if updates.len() == 0 {
        stored
    } else if updates.last().same_setting(stored) {
        updates.last()
    } else {
        merged_one(stored, updates.drop_last())
    }
}

/// The stored inputs after the updates: each one merged on its own, in its
/// place. Updates that are no stored setting change nothing.
pub open spec fn merged(stored: Seq<InputView>, updates: Seq<InputView>) -> Seq<InputView> {
    Seq::new(stored.len(), |i: int| merged_one(stored[i], updates))
}

/// Merging keeps each stored input the setting it was.
pub proof fn lemma_merged_one_same_setting(stored: InputView, updates: Seq<InputView>)
    ensures
        merged_one(stored, updates).same_setting(stored),
        forall|other: InputView|
            other.same_setting(merged_one(stored, updates)) == other.same_setting(stored),
    decreases updates.len(),
{
    if updates.len() > 0 && !updates.last().same_setting(stored) {
        lemma_merged_one_same_setting(stored, updates.drop_last());
    }
}

/// Merges `updates` into `stored`: every stored input takes the state of the
/// last update that is the same setting. Stored inputs that no update names
/// stay as they are, and updates that name no stored input are ignored.
pub fn merge_preferences(stored: &mut Vec<Input>, updates: Vec<Input>)
    ensures
        final(stored).deep_view() == merged(old(stored).deep_view(), updates.deep_view()),
{
    let ghost before = stored.deep_view();
    let ghost all = updates.deep_view();
    let mut i: usize = 0;
    proof {
        assert(stored.deep_view() =~= merged(before, all.take(0)));
    }
    while i < updates.len()
        invariant
            0 <= i <= updates.len(),
            all == updates.deep_view(),
            stored.len() == before.len(),
            stored.deep_view() == merged(before, all.take(i as int)),
        decreases updates.len() - i,
    {
        let ghost done = all.take(i as int);
        let ghost next = all.take(i as int + 1);
        proof {
            assert(next.drop_last() =~= done);
            assert(next.last() == updates@[i as int].deep_view());
            assert forall|k: int| 0 <= k < stored.len() implies stored@[k].deep_view()
                == merged_one(before[k], done) by {
                assert(stored.deep_view()[k] == merged(before, done)[k]);
            }
        }
        let mut j: usize = 0;
        while j < stored.len()
            invariant
                0 <= i < updates.len(),
                0 <= j <= stored.len(),
                all == updates.deep_view(),
                done == all.take(i as int),
                next == all.take(i as int + 1),
                next.drop_last() == done,
                next.last() == updates@[i as int].deep_view(),
                stored.len() == before.len(),
                forall|k: int|
                    0 <= k < j ==> stored@[k].deep_view() == merged_one(before[k], next),
                forall|k: int|
                    j <= k < stored.len() ==> stored@[k].deep_view() == merged_one(
                        before[k],
                        done,
                    ),
            decreases stored.len() - j,
        {
            proof {
                lemma_merged_one_same_setting(before[j as int], done);
            }
            if updates[i] == stored[j] {
                stored.set(j, updates[i].clone());
            }
            j += 1;
        }
        proof {
            assert(stored.deep_view() =~= merged(before, next));
        }
        i += 1;
    }
    proof {
        assert(all.take(updates.len() as int) =~= all);
    }
}

/// Merging the same updates a second time changes nothing.
pub proof fn lemma_merge_idempotent(stored: Seq<InputView>, updates: Seq<InputView>)
    ensures
        merged(merged(stored, updates), updates) == merged(stored, updates),
{
    assert forall|i: int| 0 <= i < stored.len() implies merged_one(
        merged_one(stored[i], updates),
        updates,
    ) == merged_one(stored[i], updates) by {
        lemma_merged_one_same_setting(stored[i], updates);
        lemma_merged_one_alike(merged_one(stored[i], updates), stored[i], updates);
    }
    assert(merged(merged(stored, updates), updates) =~= merged(stored, updates));
}

/// Two inputs that are the same setting to every update merge to the same
/// state, unless no update names them and both stay as they are.
proof fn lemma_merged_one_alike(a: InputView, b: InputView, updates: Seq<InputView>)
    requires
        forall|other: InputView| other.same_setting(a) == other.same_setting(b),
    ensures
        merged_one(a, updates) == merged_one(b, updates) || (merged_one(a, updates) == a
            && merged_one(b, updates) == b),
    decreases updates.len(),
{
    if updates.len() > 0 && !updates.last().same_setting(a) {
        lemma_merged_one_alike(a, b, updates.drop_last());
    }
}

} // verus!
