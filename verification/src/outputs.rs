//! The outputs of the compositor and the choice among them.

use vstd::prelude::*;
use vstd::string::StringExecFns;

use crate::error::CaptureError;
use crate::text::decimal_text;

verus! {

/// What is known of an output.
#[derive(Debug)]
pub struct OutputInfo {
    pub global_name: u32,
    pub name: Option<String>,
    pub description: Option<String>,
    pub width: u32,
    pub height: u32,
}

/// What the compositor tells of an output.
#[derive(Debug)]
pub enum OutputEvent {
    Mode { width: i32, height: i32 },
    Name { name: String },
    Description { description: String },
}

/// The text of an optional string is the given one.
pub open spec fn is_text(value: Option<String>, text: Seq<char>) -> bool {
    value is Some && value->0@ == text
}

/// A size that the compositor gave, none below zero.
pub open spec fn not_negative(value: i32) -> u32 {
    if value < 0 { 0 } else { value as u32 }
}

fn clip(value: i32) -> (r: u32)
    ensures
        r == not_negative(value),
{
    if value < 0 { 0 } else { value as u32 }
}

impl OutputInfo {
    /// An output of which only its number is known.
    pub fn new(global_name: u32) -> (output: OutputInfo)
        ensures
            output == (OutputInfo { global_name, name: None, description: None, width: 0, height: 0 }),
    {
        OutputInfo { global_name, name: None, description: None, width: 0, height: 0 }
    }

    /// What to call the output: its name, else its description, else its number.
    pub open spec fn title(self) -> Seq<char> {
        if self.name is Some {
            self.name->0@
        } else if self.description is Some {
            self.description->0@
        } else {
            "#"@ + crate::text::decimal(self.global_name as nat)
        }
    }

    /// What to call the output.
    pub fn label(&self) -> (r: String)
        ensures
            r@ == self.title(),
    {
        match &self.name {
            Some(name) => name.clone(),
            None => match &self.description {
                Some(description) => description.clone(),
                None => "#".to_owned().concat(decimal_text(self.global_name).as_str()),
            },
        }
    }

    /// The output after the compositor told something of it.
    pub open spec fn told(self, event: OutputEvent) -> OutputInfo {
        match event {
            OutputEvent::Mode { width, height } => OutputInfo {
                width: not_negative(width),
                height: not_negative(height),
                ..self
            },
            OutputEvent::Name { name } => OutputInfo { name: Some(name), ..self },
            OutputEvent::Description { description } => OutputInfo { description: Some(description), ..self },
        }
    }

    /// Takes in what the compositor told of the output.
    pub fn tell(&mut self, event: OutputEvent)
        ensures
            *final(self) == old(self).told(event),
    {
        match event {
            OutputEvent::Mode { width, height } => {
                self.width = clip(width);
                self.height = clip(height);
            },
            OutputEvent::Name { name } => {
                self.name = Some(name);
            },
            OutputEvent::Description { description } => {
                self.description = Some(description);
            },
        }
    }
}

/// The first output with this number is at `index`.
pub open spec fn is_first_numbered(outputs: Seq<OutputInfo>, global_name: u32, index: int) -> bool {
    &&& 0 <= index < outputs.len()
    &&& outputs[index].global_name == global_name
    &&& forall|j: int| 0 <= j < index ==> (#[trigger] outputs[j]).global_name != global_name
}

/// `after` is the list of outputs after the compositor told something of the one
/// with this number.
pub open spec fn is_update(before: Seq<OutputInfo>, after: Seq<OutputInfo>, global_name: u32, event: OutputEvent) -> bool {
    &&& after.len() == before.len()
    &&& forall|i: int|
        0 <= i < before.len() ==> #[trigger] after[i] == (if is_first_numbered(before, global_name, i) {
            before[i].told(event)
        } else {
            before[i]
        })
}

/// Takes in what the compositor told of one output; of an unknown output
/// nothing is kept.
pub fn update_output(outputs: &mut Vec<OutputInfo>, global_name: u32, event: OutputEvent)
    ensures
        is_update(old(outputs)@, final(outputs)@, global_name, event),
{
    let mut i: usize = 0;
    while i < outputs.len()
        invariant
            i <= outputs.len(),
            outputs@ == old(outputs)@,
            forall|j: int| 0 <= j < i ==> (#[trigger] outputs@[j]).global_name != global_name,
        decreases outputs.len() - i,
    {
        if outputs[i].global_name == global_name {
            outputs[i].tell(event);
            return;
        }
        i = i + 1;
    }
}

/// Which text of an output to search.
#[derive(Debug, Clone, Copy, PartialEq, Eq, Structural)]
pub enum OutputKey {
    Name,
    Description,
}

impl OutputKey {
    /// The text of an output is the given one.
    pub open spec fn matches_text(self, output: OutputInfo, text: Seq<char>) -> bool {
        match self {
            OutputKey::Name => is_text(output.name, text),
            OutputKey::Description => is_text(output.description, text),
        }
    }

    /// The first output with this text is at `index`.
    pub open spec fn is_first(self, outputs: Seq<OutputInfo>, text: Seq<char>, index: int) -> bool {
        &&& 0 <= index < outputs.len()
        &&& self.matches_text(outputs[index], text)
        &&& forall|j: int| 0 <= j < index ==> !self.matches_text(#[trigger] outputs[j], text)
    }

    /// No output has this text.
    pub open spec fn is_nowhere(self, outputs: Seq<OutputInfo>, text: Seq<char>) -> bool {
        forall|j: int| 0 <= j < outputs.len() ==> !self.matches_text(#[trigger] outputs[j], text)
    }

    fn find(self, outputs: &Vec<OutputInfo>, text: &String) -> (r: Option<usize>)
        ensures
            match r {
                Some(index) => self.is_first(outputs@, text@, index as int),
                None => self.is_nowhere(outputs@, text@),
            },
    {
        let mut i: usize = 0;
        while i < outputs.len()
            invariant
                i <= outputs.len(),
                forall|j: int| 0 <= j < i ==> !self.matches_text(#[trigger] outputs@[j], text@),
            decreases outputs.len() - i,
        {
            let value: &Option<String> = match self {
                OutputKey::Name => &outputs[i].name,
                OutputKey::Description => &outputs[i].description,
            };
            match value {
                Some(value) => {
                    if *value == *text {
                        return Some(i);
                    }
                },
                None => {},
            }
            i = i + 1;
        }
        None
    }
}

/// What to call each output.
pub open spec fn labels(outputs: Seq<OutputInfo>) -> Seq<Seq<char>> {
    outputs.map_values(|output: OutputInfo| output.title())
}

fn output_labels(outputs: &Vec<OutputInfo>) -> (r: Vec<String>)
    ensures
        crate::text::texts(r@) == labels(outputs@),
{
    let mut r: Vec<String> = Vec::new();
    let mut i: usize = 0;
    while i < outputs.len()
        invariant
            i <= outputs.len(),
            r@.len() == i,
            forall|j: int| 0 <= j < i ==> (#[trigger] r@[j])@ == outputs@[j].title(),
        decreases outputs.len() - i,
    {
        r.push(outputs[i].label());
        i = i + 1;
    }
    assert(crate::text::texts(r@) =~= labels(outputs@));
    r
}

/// `index` is the output to capture: the first one without a request, else the
/// first with the requested name, else the first with that description.
pub open spec fn is_choice(outputs: Seq<OutputInfo>, requested: Option<String>, index: int) -> bool {
    match requested {
        None => outputs.len() > 0 && index == 0,
        Some(text) => {
            ||| OutputKey::Name.is_first(outputs, text@, index)
            ||| OutputKey::Name.is_nowhere(outputs, text@) && OutputKey::Description.is_first(outputs, text@, index)
        },
    }
}

/// `error` is why no output can be captured: there is none, or none has the
/// requested name or description.
pub open spec fn is_refusal(outputs: Seq<OutputInfo>, requested: Option<String>, error: CaptureError) -> bool {
    match error {
        CaptureError::NoOutputs => outputs.len() == 0,
        CaptureError::OutputNotFound { requested: name, available } => {
            &&& outputs.len() > 0
            &&& requested is Some
            &&& OutputKey::Name.is_nowhere(outputs, requested->0@)
            &&& OutputKey::Description.is_nowhere(outputs, requested->0@)
            &&& name@ == requested->0@
            &&& crate::text::texts(available@) == labels(outputs)
        },
        _ => false,
    }
}

/// Chooses the output to capture.
pub fn select_output(outputs: &Vec<OutputInfo>, requested: &Option<String>) -> (r: Result<usize, CaptureError>)
    ensures
        match r {
            Ok(index) => is_choice(outputs@, *requested, index as int),
            Err(error) => is_refusal(outputs@, *requested, error),
        },
{
    if outputs.len() == 0 {
        return Err(CaptureError::NoOutputs);
    }
    match requested {
        None => Ok(0),
        Some(name) => match OutputKey::Name.find(outputs, name) {
            Some(index) => Ok(index),
            None => match OutputKey::Description.find(outputs, name) {
                Some(index) => Ok(index),
                None => Err(
                    CaptureError::OutputNotFound { requested: name.clone(), available: output_labels(outputs) },
                ),
            },
        },
    }
}

/// At most one output is the choice, it is one of the outputs, and where there
/// is a choice nothing is refused.
pub proof fn law_choice_is_unique(
    outputs: Seq<OutputInfo>,
    requested: Option<String>,
    i: int,
    j: int,
    error: CaptureError,
)
    requires
        is_choice(outputs, requested, i),
    ensures
        0 <= i < outputs.len(),
        is_choice(outputs, requested, j) ==> i == j,
        !is_refusal(outputs, requested, error),
{
}

/// What the compositor tells of an output can be read back from it, sizes below
/// zero as zero, and nothing else of it changes.
pub proof fn law_told_facts_can_be_read_back(output: OutputInfo, event: OutputEvent)
    ensures
        ({
            let after = output.told(event);
            &&& after.global_name == output.global_name
            &&& match event {
                OutputEvent::Mode { width, height } => {
                    &&& width >= 0 ==> after.width == width
                    &&& width <= 0 ==> after.width == 0
                    &&& height >= 0 ==> after.height == height
                    &&& height <= 0 ==> after.height == 0
                    &&& after.name == output.name && after.description == output.description
                },
                OutputEvent::Name { name } => {
                    &&& after.name == Some(name)
                    &&& after.description == output.description
                    &&& after.width == output.width && after.height == output.height
                },
                OutputEvent::Description { description } => {
                    &&& after.description == Some(description)
                    &&& after.name == output.name
                    &&& after.width == output.width && after.height == output.height
                },
            }
        }),
{
}

/// An event reaches the first output with its number, and no other.
pub proof fn law_events_reach_one_output(
    before: Seq<OutputInfo>,
    after: Seq<OutputInfo>,
    global_name: u32,
    event: OutputEvent,
    i: int,
    j: int,
)
    requires
        is_update(before, after, global_name, event),
        0 <= i < before.len(),
    ensures
        after.len() == before.len(),
        before[i].global_name != global_name ==> after[i] == before[i],
        0 <= j < i && before[j].global_name == global_name ==> after[i] == before[i],
        before[i].global_name == global_name && (forall|k: int|
            0 <= k < i ==> (#[trigger] before[k]).global_name != global_name) ==> after[i] == before[i].told(event),
{
}

/// An output goes by its name, without one by its description, and without either
/// by its number.
pub proof fn law_labels_name_outputs(output: OutputInfo)
    ensures
        output.name matches Some(name) ==> output.title() == name@,
        output.name is None ==> (output.description matches Some(description) ==> output.title() == description@),
        output.name is None && output.description is None ==> output.title().len() > 1 && output.title()[0] == '#'
            && crate::text::number(output.title().skip(1)) == output.global_name,
{
    if output.name is None && output.description is None {
        reveal_strlit("#");
        crate::text::law_decimal_can_be_read_back(output.global_name as nat, 0);
        assert(output.title().skip(1) =~= crate::text::decimal(output.global_name as nat));
    }
}

/// The output that is captured is the one that was asked for: the first with the
/// requested name, or, where no output has that name, the first with that
/// description. Without a request it is the first of all.
pub proof fn law_the_requested_output_is_chosen(
    outputs: Seq<OutputInfo>,
    requested: Option<String>,
    index: int,
    j: int,
)
    requires
        is_choice(outputs, requested, index),
    ensures
        0 <= index < outputs.len(),
        requested is None ==> index == 0,
        requested matches Some(text) ==> {
            let chosen = outputs[index];
            let named = chosen.name is Some && chosen.name->0@ == text@;
            let described = chosen.description is Some && chosen.description->0@ == text@;
            &&& named || described
            &&& 0 <= j < outputs.len() && outputs[j].name is Some && outputs[j].name->0@ == text@ ==> named && index
                <= j
            &&& 0 <= j < outputs.len() && outputs[j].description is Some && outputs[j].description->0@ == text@
                && !named ==> index <= j
        },
{
}

/// A capture is refused only where there is no output at all, or where none has
/// the requested name or description; then the error names what was asked for and
/// every output there is.
pub proof fn law_refusals_have_a_ground(
    outputs: Seq<OutputInfo>,
    requested: Option<String>,
    error: CaptureError,
    j: int,
)
    requires
        is_refusal(outputs, requested, error),
    ensures
        outputs.len() == 0 <==> error is NoOutputs,
        outputs.len() > 0 ==> {
            &&& error matches CaptureError::OutputNotFound { requested: name, available }
            &&& requested is Some && name@ == requested->0@
            &&& available@.len() == outputs.len()
            &&& 0 <= j < outputs.len() ==> available@[j]@ == outputs[j].title()
            &&& 0 <= j < outputs.len() && outputs[j].name is Some ==> outputs[j].name->0@ != requested->0@
            &&& 0 <= j < outputs.len() && outputs[j].description is Some ==> outputs[j].description->0@
                != requested->0@
        },
{
    if error is OutputNotFound {
        let available = error->available;
        assert(crate::text::texts(available@).len() == labels(outputs).len());
        if 0 <= j < outputs.len() {
            assert(crate::text::texts(available@)[j] == labels(outputs)[j]);
        }
    }
}

} // verus!
