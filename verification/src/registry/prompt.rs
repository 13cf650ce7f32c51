//! Prompts: named templates that render to a sequence of messages.

use vstd::prelude::*;
use vstd::string::*;
use crate::assoc::{distinct, find, lemma_put, put};
use crate::error::{Error, ErrorView};
use crate::json::{items_view, members_view, Json, JsonView};
use crate::message::{
    pairs_view, views, GetPromptParams, GetPromptResult, GetPromptResultView, PromptArgument,
    PromptArgumentView, PromptDefinition, PromptDefinitionView, PromptMessage,
};
use crate::registry::HandlerRegistry;
use crate::text::{clone_opt, opt_view};

verus! {

/// Whether a property of a schema is a prompt argument, and if so whether
/// the argument is required: the type `string` is a required argument, the
/// type `["string", "null"]` an optional one, and nothing else is an
/// argument.
pub open spec fn argument_type(property: JsonView) -> Option<bool> {
    match property.get("type"@) {
        Some(JsonView::Str(t)) => if t == "string"@ {
            Some(true)
        } else {
            None
        },
        Some(JsonView::Array(a)) => if a == seq![
            JsonView::Str("string"@),
            JsonView::Str("null"@),
        ] {
            Some(false)
        } else {
            None
        },
        _ => None,
    }
}

/// The description that a property of a schema carries.
pub open spec fn property_description(property: JsonView) -> Option<Seq<char>> {
    match property.get("description"@) {
        Some(JsonView::Str(d)) => Some(d),
        _ => None,
    }
}

/// The argument that the property `name` of a schema stands for.
pub open spec fn argument_of(name: Seq<char>, property: JsonView) -> Option<PromptArgumentView> {
    match argument_type(property) {
        Some(required) => Some(
            PromptArgumentView { name, description: property_description(property), required },
        ),
        None => None,
    }
}

/// The arguments that a handler's input schema stands for, in the order of
/// the schema's properties; `None` where the schema is no object, or its
/// properties are no object, or one of them is no argument.
pub open spec fn arguments_of(schema: JsonView) -> Option<Seq<PromptArgumentView>> {
    match schema {
        JsonView::Object(_) => match schema.get("properties"@) {
            None => Some(Seq::empty()),
            Some(JsonView::Object(members)) => if forall|i: int|
                0 <= i < members.len() ==> argument_of(
                    (#[trigger] members[i]).0,
                    members[i].1,
                ) is Some {
                Some(
                    Seq::new(
                        members.len(),
                        |i: int| argument_of(members[i].0, members[i].1)->0,
                    ),
                )
            } else {
                None
            },
            Some(_) => None,
        },
        _ => None,
    }
}

/// The error for a schema whose properties are not all arguments.
pub open spec fn invalid_schema() -> ErrorView {
    ErrorView { message: "prompt arguments must be strings or optional strings"@, code: 500 }
}

fn read_argument_type(property: &Json) -> (r: Option<bool>)
    ensures
        r == argument_type(property@),
{
    match property.get("type") {
        Some(kind) => {
            match kind.as_str() {
                Some(t) => {
                    if *t.as_str() == *"string" {
                        Some(true)
                    } else {
                        None
                    }
                },
                None => {
                    match kind.as_array() {
                        Some(a) => {
                            let ghost want = seq![JsonView::Str("string"@), JsonView::Str("null"@)];
                            if a.len() != 2 {
                                assert(items_view(a@).len() != want.len());
                                return None;
                            }
                            let first = match a[0].as_str() {
                                Some(s) => *s.as_str() == *"string",
                                None => false,
                            };
                            let second = match a[1].as_str() {
                                Some(s) => *s.as_str() == *"null",
                                None => false,
                            };
                            proof {
                                let got = items_view(a@);
                                assert(got[0] == a@[0]@);
                                assert(got[1] == a@[1]@);
                                assert(want[0] == JsonView::Str("string"@));
                                assert(want[1] == JsonView::Str("null"@));
                                if first && second {
                                    assert(got =~= want);
                                }
                            }
                            if first && second {
                                Some(false)
                            } else {
                                None
                            }
                        },
                        None => None,
                    }
                },
            }
        },
        None => None,
    }
}

fn read_description(property: &Json) -> (r: Option<String>)
    ensures
        opt_view(r) == property_description(property@),
{
    match property.get("description") {
        Some(d) => match d.as_str() {
            Some(text) => Some(text.clone()),
            None => None,
        },
        None => None,
    }
}

/// Reads the arguments of a prompt off the JSON Schema of its handler's
/// input. Every property of the schema has to be a string or an optional
/// string; otherwise the error 500 comes back.
pub fn prompt_arguments(schema: &Json) -> (r: Result<Vec<PromptArgument>, Error>)
    ensures
        match r {
            Ok(arguments) => arguments_of(schema@) == Some(views(arguments@)),
            Err(e) => arguments_of(schema@) is None && e@ == invalid_schema(),
        },
{
    let message = "prompt arguments must be strings or optional strings";
    if schema.as_object().is_none() {
        return Err(Error::construction(message));
    }
    let properties = match schema.get("properties") {
        Some(properties) => properties,
        None => {
            let none: Vec<PromptArgument> = Vec::new();
            assert(views(none@) =~= Seq::empty());
            return Ok(none);
        },
    };
    let members = match properties.as_object() {
        Some(members) => members,
        None => {
            return Err(Error::construction(message));
        },
    };
    let ghost all = members_view(members@);
    let mut arguments: Vec<PromptArgument> = Vec::new();
    let mut i: usize = 0;
    while i < members.len()
        invariant
            0 <= i <= members.len(),
            all == members_view(members@),
            schema@ is Object,
            schema@.get("properties"@) == Some(JsonView::Object(all)),
            arguments.len() == i,
            forall|k: int|
                0 <= k < i ==> argument_of((#[trigger] all[k]).0, all[k].1) == Some(
                    arguments[k]@,
                ),
            message@ == "prompt arguments must be strings or optional strings"@,
        decreases members.len() - i,
    {
        let name = &members[i].0;
        let property = &members[i].1;
        assert(all[i as int] == (name@, property@));
        match read_argument_type(property) {
            Some(required) => {
                arguments.push(
                    PromptArgument {
                        name: name.clone(),
                        description: read_description(property),
                        required,
                    },
                );
            },
            None => {
                assert(argument_of(all[i as int].0, all[i as int].1) is None);
                return Err(Error::construction(message));
            },
        }
        i += 1;
    }
    assert(views(arguments@) =~= Seq::new(
        all.len(),
        |i: int| argument_of(all[i].0, all[i].1)->0,
    ));
    Ok(arguments)
}

/// A prompt: its name, what it is for, the arguments that it takes, and the
/// handler that renders it.
pub struct Prompt<H> {
    name: String,
    description: Option<String>,
    arguments: Vec<PromptArgument>,
    handler: H,
}

/// What a [`Prompt`] holds.
pub struct PromptView<H> {
    pub name: Seq<char>,
    pub description: Option<Seq<char>>,
    pub arguments: Seq<PromptArgumentView>,
    pub handler: H,
}

impl<H> View for Prompt<H> {
    type V = PromptView<H>;

    closed spec fn view(&self) -> PromptView<H> {
        PromptView {
            name: self.name@,
            description: opt_view(self.description),
            arguments: views(self.arguments@),
            handler: self.handler,
        }
    }
}

/// A prompt as a listing shows it.
pub open spec fn prompt_definition_of<H>(prompt: PromptView<H>) -> PromptDefinitionView {
    PromptDefinitionView {
        name: prompt.name,
        description: prompt.description,
        arguments: prompt.arguments,
    }
}

fn clone_arguments(arguments: &Vec<PromptArgument>) -> (r: Vec<PromptArgument>)
    ensures
        views(r@) == views(arguments@),
{
    let mut out: Vec<PromptArgument> = Vec::new();
    let mut i: usize = 0;
    while i < arguments.len()
        invariant
            0 <= i <= arguments.len(),
            out.len() == i,
            forall|k: int| 0 <= k < i ==> (#[trigger] out[k])@ == arguments[k]@,
        decreases arguments.len() - i,
    {
        let a = &arguments[i];
        out.push(
            PromptArgument {
                name: a.name.clone(),
                description: clone_opt(&a.description),
                required: a.required,
            },
        );
        i += 1;
    }
    assert(views(out@) =~= views(arguments@));
    out
}

impl<H> Prompt<H> {
    /// A builder for the prompt `name`.
    pub fn builder(name: &str) -> (r: PromptBuilder<H>)
        ensures
            r@ == PromptBuilderView::<H>::named(name@),
    {
        PromptBuilder::new(name)
    }

    /// The prompt's name.
    pub fn name(&self) -> (r: &String)
        ensures
            r@ == self@.name,
    {
        &self.name
    }

    /// The prompt's description, if it has one.
    pub fn description(&self) -> (r: &Option<String>)
        ensures
            opt_view(*r) == self@.description,
    {
        &self.description
    }

    /// The prompt's arguments.
    pub fn arguments(&self) -> (r: &Vec<PromptArgument>)
        ensures
            views(r@) == self@.arguments,
    {
        &self.arguments
    }

    /// The prompt's handler.
    pub fn handler(&self) -> (r: &H)
        ensures
            *r == self@.handler,
    {
        &self.handler
    }

    /// The prompt as a listing shows it.
    pub fn definition(&self) -> (r: PromptDefinition)
        ensures
            r@ == prompt_definition_of(self@),
    {
        PromptDefinition {
            name: self.name.clone(),
            description: clone_opt(&self.description),
            arguments: clone_arguments(&self.arguments),
        }
    }

    /// Wraps the messages that the prompt's handler returned into the
    /// result of `getPrompt`: the prompt's description and the messages in
    /// their order.
    pub fn run(&self, messages: Vec<PromptMessage>) -> (r: GetPromptResult)
        ensures
            r@ == (GetPromptResultView {
                description: self@.description,
                messages: views(messages@),
            }),
    {
        GetPromptResult { description: clone_opt(&self.description), messages }
    }
}

/// Collects the fields of a [`Prompt`].
pub struct PromptBuilder<H> {
    name: String,
    description: Option<String>,
    schema: Option<Json>,
    handler: Option<H>,
}

/// What a [`PromptBuilder`] has been given so far.
pub struct PromptBuilderView<H> {
    pub name: Seq<char>,
    pub description: Option<Seq<char>>,
    pub schema: Option<JsonView>,
    pub handler: Option<H>,
}

impl<H> PromptBuilderView<H> {
    /// What a builder holds when only the name is set.
    pub open spec fn named(name: Seq<char>) -> Self {
        PromptBuilderView { name, description: None, schema: None, handler: None }
    }

    /// What `build` returns: the prompt with the arguments that its schema
    /// stands for, or the error for a missing handler or for a schema
    /// whose properties are not all arguments.
    pub open spec fn built(self) -> Result<PromptView<H>, ErrorView> {
        if self.schema is None || self.handler is None {
            Err(ErrorView { message: "missing handler"@, code: 500 })
        } else {
            match arguments_of(self.schema->0) {
                Some(arguments) => Ok(
                    PromptView {
                        name: self.name,
                        description: self.description,
                        arguments,
                        handler: self.handler->0,
                    },
                ),
                None => Err(invalid_schema()),
            }
        }
    }
}

impl<H> View for PromptBuilder<H> {
    type V = PromptBuilderView<H>;

    closed spec fn view(&self) -> PromptBuilderView<H> {
        PromptBuilderView {
            name: self.name@,
            description: opt_view(self.description),
            schema: match self.schema {
                Some(s) => Some(s@),
                None => None,
            },
            handler: self.handler,
        }
    }
}

impl<H> PromptBuilder<H> {
    /// A builder for the prompt `name`.
    pub fn new(name: &str) -> (r: Self)
        ensures
            r@ == PromptBuilderView::<H>::named(name@),
    {
        PromptBuilder { name: name.to_owned(), description: None, schema: None, handler: None }
    }

    /// Sets the description.
    pub fn description(self, description: &str) -> (r: Self)
        ensures
            r@ == (PromptBuilderView { description: Some(description@), ..self@ }),
    {
        let mut this = self;
        this.description = Some(description.to_owned());
        this
    }

    /// Sets the handler together with the JSON Schema of its input.
    pub fn handler(self, schema: Json, handler: H) -> (r: Self)
        ensures
            r@ == (PromptBuilderView { schema: Some(schema@), handler: Some(handler), ..self@ }),
    {
        let mut this = self;
        this.schema = Some(schema);
        this.handler = Some(handler);
        this
    }

    /// Builds the prompt. Fails with the code 500 where the handler was not
    /// set, or where a property of its input schema is neither a string nor
    /// an optional string.
    pub fn build(self) -> (r: Result<Prompt<H>, Error>)
        ensures
            match r {
                Ok(prompt) => self@.built() == Ok::<PromptView<H>, ErrorView>(prompt@),
                Err(e) => self@.built() == Err::<PromptView<H>, ErrorView>(e@),
            },
    {
        let schema = match self.schema {
            Some(schema) => schema,
            None => {
                return Err(Error::construction("missing handler"));
            },
        };
        let handler = match self.handler {
            Some(handler) => handler,
            None => {
                return Err(Error::construction("missing handler"));
            },
        };
        match prompt_arguments(&schema) {
            Ok(arguments) => Ok(
                Prompt { name: self.name, description: self.description, arguments, handler },
            ),
            Err(e) => Err(e),
        }
    }
}

/// A prompt that was found for a request, with the arguments to hand to
/// its handler.
pub struct PromptCall<'a, H> {
    pub prompt: &'a Prompt<H>,
    pub arguments: Vec<(String, Json)>,
}

/// The members of the JSON object that holds the given arguments, each as a
/// string.
pub open spec fn string_members(arguments: Option<Seq<(Seq<char>, Seq<char>)>>) -> Seq<
    (Seq<char>, JsonView),
> {
    match arguments {
        Some(pairs) => Seq::new(pairs.len(), |i: int| (pairs[i].0, JsonView::Str(pairs[i].1))),
        None => Seq::empty(),
    }
}

/// The prompts of a server, each under its name, in the order in which the
/// names were first registered.
pub struct PromptRegistry<H> {
    registry: HandlerRegistry<Prompt<H>>,
}

impl<H> View for PromptRegistry<H> {
    type V = Seq<(Seq<char>, Prompt<H>)>;

    closed spec fn view(&self) -> Seq<(Seq<char>, Prompt<H>)> {
        self.registry@
    }
}

/// The listing of the prompts `prompts`.
pub open spec fn prompt_definitions<H>(prompts: Seq<(Seq<char>, Prompt<H>)>) -> Seq<
    PromptDefinitionView,
> {
    Seq::new(prompts.len(), |i: int| prompt_definition_of(prompts[i].1@))
}

impl<H> PromptRegistry<H> {
    /// The registry's invariant: no name occurs twice, and every prompt
    /// stands under its own name.
    pub open spec fn wf(&self) -> bool {
        &&& distinct(self@)
        &&& forall|i: int| 0 <= i < self@.len() ==> (#[trigger] self@[i]).0 == self@[i].1@.name
    }

    /// The empty registry.
    pub fn new() -> (r: Self)
        ensures
            r.wf(),
            r@ == Seq::<(Seq<char>, Prompt<H>)>::empty(),
    {
        PromptRegistry { registry: HandlerRegistry::new() }
    }

    /// Registers `prompt` under its name. A prompt that stood under that
    /// name is replaced and keeps its place.
    pub fn register(&mut self, prompt: Prompt<H>)
        requires
            old(self).wf(),
        ensures
            final(self).wf(),
            final(self)@ == put(old(self)@, prompt@.name, prompt),
            find(final(self)@, prompt@.name) == Some(prompt),
            forall|other: Seq<char>|
                other != prompt@.name ==> find(final(self)@, other) == find(old(self)@, other),
    {
        proof {
            lemma_put(self@, prompt@.name, prompt);
            let after = put(self@, prompt@.name, prompt);
            assert forall|i: int| 0 <= i < after.len() implies (#[trigger] after[i]).0
                == after[i].1@.name by {
                if i < self@.len() && after[i] == self@[i] {
                    assert(self@[i].0 == self@[i].1@.name);
                }
            }
        }
        let name = prompt.name.clone();
        self.registry.register(name, prompt);
    }

    /// Finds the prompt that `request` names and turns the arguments of the
    /// request into the members of a JSON object of strings. An unknown
    /// name gives the error 404 with the message `Prompt '<name>' not
    /// found`.
    pub fn get_prompt(&self, request: GetPromptParams) -> (r: Result<PromptCall<'_, H>, Error>)
        requires
            self.wf(),
        ensures
            match r {
                Ok(call) => find(self@, request@.name) == Some(*call.prompt) && members_view(
                    call.arguments@,
                ) == string_members(request@.arguments),
                Err(e) => find(self@, request@.name) is None && e@ == Error::not_found_view(
                    "Prompt"@,
                    request@.name,
                ),
            },
    {
        match self.registry.get(request.name.as_str()) {
            Some(prompt) => {
                let mut arguments: Vec<(String, Json)> = Vec::new();
                match request.arguments {
                    Some(pairs) => {
                        let ghost all = pairs_view(pairs@);
                        let ghost n = pairs.len();
                        let mut i: usize = 0;
                        while i < pairs.len()
                            invariant
                                0 <= i <= pairs.len(),
                                pairs.len() == n,
                                all.len() == n,
                                arguments.len() == i,
                                forall|k: int|
                                    i <= k < n ==> (#[trigger] pairs[k]).0@ == all[k].0
                                        && pairs[k].1@ == all[k].1,
                                forall|k: int|
                                    0 <= k < i ==> (#[trigger] arguments[k]).0@ == all[k].0
                                        && arguments[k].1@ == JsonView::Str(all[k].1),
                            decreases pairs.len() - i,
                        {
                            let key = pairs[i].0.clone();
                            let value = pairs[i].1.clone();
                            arguments.push((key, Json::Str(value)));
                            i += 1;
                        }
                        assert(members_view(arguments@) =~= string_members(Some(all)));
                    },
                    None => {
                        assert(members_view(arguments@) =~= Seq::empty());
                    },
                }
                Ok(PromptCall { prompt, arguments })
            },
            None => Err(Error::not_found("Prompt", request.name.as_str())),
        }
    }

    /// Every name with its prompt, in the registry's order.
    pub fn prompts_iter(&self) -> (r: Vec<(&String, &Prompt<H>)>)
        ensures
            r.len() == self@.len(),
            forall|i: int|
                0 <= i < r.len() ==> (#[trigger] r[i]).0@ == self@[i].0 && *r[i].1 == self@[i].1,
    {
        self.registry.handlers_iter()
    }

    /// The listing of the registry: one entry for each registered name, in
    /// the registry's order.
    pub fn list_prompts(&self) -> (r: Vec<PromptDefinition>)
        ensures
            views(r@) == prompt_definitions(self@),
    {
        let entries = self.registry.handlers_iter();
        let mut prompts: Vec<PromptDefinition> = Vec::new();
        let mut i: usize = 0;
        while i < entries.len()
            invariant
                0 <= i <= entries.len(),
                entries.len() == self@.len(),
                prompts.len() == i,
                forall|k: int| 0 <= k < entries.len() ==> *(#[trigger] entries[k]).1 == self@[k].1,
                forall|k: int|
                    0 <= k < i ==> (#[trigger] prompts[k])@ == prompt_definition_of(self@[k].1@),
            decreases entries.len() - i,
        {
            prompts.push(entries[i].1.definition());
            i += 1;
        }
        assert(views(prompts@) =~= prompt_definitions(self@));
        prompts
    }
}

impl<H> Default for PromptRegistry<H> {
    fn default() -> (r: Self)
        ensures
            r.wf(),
            r@ == Seq::<(Seq<char>, Prompt<H>)>::empty(),
    {
        PromptRegistry::new()
    }
}

} // verus!
