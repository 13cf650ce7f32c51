//! Resources: data under an address, and families of them under a
//! template.

use vstd::prelude::*;
use vstd::string::*;
use crate::assoc::{distinct, find, lemma_put, put};
use crate::error::{Error, ErrorView, NOT_FOUND};
use crate::json::{duplicate_optional, opt_json_view, Json, JsonView};
use crate::message::{views, ResourceDefinition, ResourceDefinitionView};
use crate::registry::HandlerRegistry;
use crate::text::{clone_opt, join3, opt_view};
use crate::uri_template::{template_matches, template_uri_matches};

verus! {

/// The address of one resource.
#[derive(Debug, Clone, PartialEq, Eq, Hash)]
pub struct FixedResourceUri(pub String);

/// The template of the addresses of a family of resources.
#[derive(Debug, Clone, PartialEq, Eq, Hash)]
pub struct TemplateResourceUri(pub String);

/// A resource, or a family of them: where it is, what it is called, and the
/// source that reads it and waits for its changes. The source is the
/// caller's; the crate stores it and hands it back.
pub struct Resource<S, Uri> {
    uri: Uri,
    name: String,
    description: Option<String>,
    mime_type: Option<String>,
    annotations: Option<Json>,
    source: S,
}

/// What a [`Resource`] holds.
pub struct ResourceView<S, Uri> {
    pub uri: Uri,
    pub name: Seq<char>,
    pub description: Option<Seq<char>>,
    pub mime_type: Option<Seq<char>>,
    pub annotations: Option<JsonView>,
    pub source: S,
}

impl<S, Uri> View for Resource<S, Uri> {
    type V = ResourceView<S, Uri>;

    closed spec fn view(&self) -> ResourceView<S, Uri> {
        ResourceView {
            uri: self.uri,
            name: self.name@,
            description: opt_view(self.description),
            mime_type: opt_view(self.mime_type),
            annotations: opt_json_view(self.annotations),
            source: self.source,
        }
    }
}

impl<S, Uri> Resource<S, Uri> {
    /// A builder with nothing set.
    pub fn builder() -> (r: ResourceBuilder<S, Uri>)
        ensures
            r@ == ResourceBuilderView::<S, Uri>::empty(),
    {
        ResourceBuilder::new()
    }

    /// The resource's address or template.
    pub fn uri(&self) -> (r: &Uri)
        ensures
            *r == self@.uri,
    {
        &self.uri
    }

    /// The resource's name.
    pub fn name(&self) -> (r: &String)
        ensures
            r@ == self@.name,
    {
        &self.name
    }

    /// The resource's description, if it has one.
    pub fn description(&self) -> (r: &Option<String>)
        ensures
            opt_view(*r) == self@.description,
    {
        &self.description
    }

    /// The resource's media type, if it has one.
    pub fn mime_type(&self) -> (r: &Option<String>)
        ensures
            opt_view(*r) == self@.mime_type,
    {
        &self.mime_type
    }

    /// The resource's annotations, if it has any.
    pub fn annotations(&self) -> (r: &Option<Json>)
        ensures
            opt_json_view(*r) == self@.annotations,
    {
        &self.annotations
    }

    /// The resource's source.
    pub fn source(&self) -> (r: &S)
        ensures
            *r == self@.source,
    {
        &self.source
    }
}

/// A resource as a listing shows it, under the text `uri` of its address or
/// template.
pub open spec fn resource_definition_of<S, Uri>(
    uri: Seq<char>,
    resource: ResourceView<S, Uri>,
) -> ResourceDefinitionView {
    ResourceDefinitionView {
        uri,
        name: resource.name,
        description: resource.description,
        mime_type: resource.mime_type,
        annotations: resource.annotations,
    }
}

impl<S> Resource<S, FixedResourceUri> {
    /// The resource as `listResources` shows it.
    pub fn definition(&self) -> (r: ResourceDefinition)
        ensures
            r@ == resource_definition_of(self@.uri.0@, self@),
    {
        ResourceDefinition {
            uri: self.uri.0.clone(),
            name: self.name.clone(),
            description: clone_opt(&self.description),
            mime_type: clone_opt(&self.mime_type),
            annotations: duplicate_optional(&self.annotations),
        }
    }
}

impl<S> Resource<S, TemplateResourceUri> {
    /// The family as `listResourceTemplates` shows it.
    pub fn definition(&self) -> (r: ResourceDefinition)
        ensures
            r@ == resource_definition_of(self@.uri.0@, self@),
    {
        ResourceDefinition {
            uri: self.uri.0.clone(),
            name: self.name.clone(),
            description: clone_opt(&self.description),
            mime_type: clone_opt(&self.mime_type),
            annotations: duplicate_optional(&self.annotations),
        }
    }
}

/// Collects the fields of a [`Resource`].
pub struct ResourceBuilder<S, Uri> {
    uri: Option<Uri>,
    name: Option<String>,
    description: Option<String>,
    mime_type: Option<String>,
    annotations: Option<Json>,
    source: Option<S>,
}

/// What a [`ResourceBuilder`] has been given so far.
pub struct ResourceBuilderView<S, Uri> {
    pub uri: Option<Uri>,
    pub name: Option<Seq<char>>,
    pub description: Option<Seq<char>>,
    pub mime_type: Option<Seq<char>>,
    pub annotations: Option<JsonView>,
    pub source: Option<S>,
}

impl<S, Uri> ResourceBuilderView<S, Uri> {
    /// What a builder holds when nothing is set.
    pub open spec fn empty() -> Self {
        ResourceBuilderView {
            uri: None,
            name: None,
            description: None,
            mime_type: None,
            annotations: None,
            source: None,
        }
    }

    /// What `build` returns: the resource, or the first field that is
    /// missing, in the order address, name, source.
    pub open spec fn built(self) -> Result<ResourceView<S, Uri>, ErrorView> {
        if self.uri is None {
            Err(ErrorView { message: "missing uri"@, code: 500 })
        } else if self.name is None {
            Err(ErrorView { message: "missing name"@, code: 500 })
        } else if self.source is None {
            Err(ErrorView { message: "missing source"@, code: 500 })
        } else {
            Ok(
                ResourceView {
                    uri: self.uri->0,
                    name: self.name->0,
                    description: self.description,
                    mime_type: self.mime_type,
                    annotations: self.annotations,
                    source: self.source->0,
                },
            )
        }
    }
}

impl<S, Uri> View for ResourceBuilder<S, Uri> {
    type V = ResourceBuilderView<S, Uri>;

    closed spec fn view(&self) -> ResourceBuilderView<S, Uri> {
        ResourceBuilderView {
            uri: self.uri,
            name: opt_view(self.name),
            description: opt_view(self.description),
            mime_type: opt_view(self.mime_type),
            annotations: opt_json_view(self.annotations),
            source: self.source,
        }
    }
}

impl<S, Uri> ResourceBuilder<S, Uri> {
    /// A builder with nothing set.
    pub fn new() -> (r: Self)
        ensures
            r@ == ResourceBuilderView::<S, Uri>::empty(),
    {
        ResourceBuilder {
            uri: None,
            name: None,
            description: None,
            mime_type: None,
            annotations: None,
            source: None,
        }
    }

    /// Sets the name.
    pub fn name(self, name: &str) -> (r: Self)
        ensures
            r@ == (ResourceBuilderView { name: Some(name@), ..self@ }),
    {
        let mut this = self;
        this.name = Some(name.to_owned());
        this
    }

    /// Sets the description.
    pub fn description(self, description: &str) -> (r: Self)
        ensures
            r@ == (ResourceBuilderView { description: Some(description@), ..self@ }),
    {
        let mut this = self;
        this.description = Some(description.to_owned());
        this
    }

    /// Sets the media type.
    pub fn mime_type(self, mime_type: &str) -> (r: Self)
        ensures
            r@ == (ResourceBuilderView { mime_type: Some(mime_type@), ..self@ }),
    {
        let mut this = self;
        this.mime_type = Some(mime_type.to_owned());
        this
    }

    /// Sets the annotations: whom the resource is meant for and how much
    /// it matters, as a JSON document that the listings pass on as it is.
    pub fn annotations(self, annotations: Json) -> (r: Self)
        ensures
            r@ == (ResourceBuilderView { annotations: Some(annotations@), ..self@ }),
    {
        let mut this = self;
        this.annotations = Some(annotations);
        this
    }

    /// Sets the source.
    pub fn source(self, source: S) -> (r: Self)
        ensures
            r@ == (ResourceBuilderView { source: Some(source), ..self@ }),
    {
        let mut this = self;
        this.source = Some(source);
        this
    }

    /// Builds the resource. Fails with the code 500 where the address, the
    /// name or the source was not set.
    pub fn build(self) -> (r: Result<Resource<S, Uri>, Error>)
        ensures
            match r {
                Ok(resource) => self@.built() == Ok::<ResourceView<S, Uri>, ErrorView>(resource@),
                Err(e) => self@.built() == Err::<ResourceView<S, Uri>, ErrorView>(e@),
            },
    {
        let uri = match self.uri {
            Some(uri) => uri,
            None => {
                return Err(Error::construction("missing uri"));
            },
        };
        let name = match self.name {
            Some(name) => name,
            None => {
                return Err(Error::construction("missing name"));
            },
        };
        let source = match self.source {
            Some(source) => source,
            None => {
                return Err(Error::construction("missing source"));
            },
        };
        Ok(
            Resource {
                uri,
                name,
                description: self.description,
                mime_type: self.mime_type,
                annotations: self.annotations,
                source,
            },
        )
    }
}

impl<S> ResourceBuilder<S, FixedResourceUri> {
    /// Sets the address of the resource.
    pub fn fixed_uri(self, uri: &str) -> (r: Self)
        ensures
            r@.uri is Some,
            (r@.uri->0).0@ == uri@,
            r@ == (ResourceBuilderView { uri: r@.uri, ..self@ }),
    {
        let mut this = self;
        this.uri = Some(FixedResourceUri(uri.to_owned()));
        this
    }
}

impl<S> ResourceBuilder<S, TemplateResourceUri> {
    /// Sets the template of the family's addresses.
    pub fn template_uri(self, uri: &str) -> (r: Self)
        ensures
            r@.uri is Some,
            (r@.uri->0).0@ == uri@,
            r@ == (ResourceBuilderView { uri: r@.uri, ..self@ }),
    {
        let mut this = self;
        this.uri = Some(TemplateResourceUri(uri.to_owned()));
        this
    }
}

impl<S, Uri> Default for ResourceBuilder<S, Uri> {
    fn default() -> (r: Self)
        ensures
            r@ == ResourceBuilderView::<S, Uri>::empty(),
    {
        ResourceBuilder::new()
    }
}

/// The source of the first family in `templates` whose template `uri` is
/// an expansion of.
pub open spec fn first_match<S>(
    templates: Seq<Resource<S, TemplateResourceUri>>,
    uri: Seq<char>,
) -> Option<S>
    decreases templates.len(),
{
    if templates.len() == 0 {
        None
    } else if template_matches(templates[0]@.uri.0@, uri) {
        Some(templates[0]@.source)
    } else {
        first_match(templates.drop_first(), uri)
    }
}

/// The source that serves `uri`: that of the resource at exactly this
/// address, else that of the first family, in the order of registration,
/// whose template matches.
pub open spec fn resolve<S>(
    fixed: Seq<(Seq<char>, Resource<S, FixedResourceUri>)>,
    templates: Seq<Resource<S, TemplateResourceUri>>,
    uri: Seq<char>,
) -> Option<S> {
    match find(fixed, uri) {
        Some(resource) => Some(resource@.source),
        None => first_match(templates, uri),
    }
}

/// The error for an address that no resource serves.
pub open spec fn no_resource(uri: Seq<char>) -> ErrorView {
    ErrorView { message: "Resource at uri '"@ + uri + "' not found"@, code: 404 }
}

/// Looking for a match in `templates` from position `from` on.
proof fn lemma_first_match_skip<S>(
    templates: Seq<Resource<S, TemplateResourceUri>>,
    uri: Seq<char>,
    from: int,
)
    requires
        0 <= from <= templates.len(),
        forall|i: int| 0 <= i < from ==> !template_matches((#[trigger] templates[i])@.uri.0@, uri),
    ensures
        first_match(templates, uri) == first_match(templates.skip(from), uri),
    decreases from,
{
    if from > 0 {
        lemma_first_match_skip(templates, uri, from - 1);
        let rest = templates.skip(from - 1);
        assert(rest[0] == templates[from - 1]);
        assert(rest.drop_first() =~= templates.skip(from));
    } else {
        assert(templates.skip(0) =~= templates);
    }
}

/// The resources of a server: those at a fixed address, each under its
/// address, and the families, in the order of their registration.
pub struct ResourceRegistry<S> {
    fixed_resources: HandlerRegistry<Resource<S, FixedResourceUri>>,
    template_resources: Vec<Resource<S, TemplateResourceUri>>,
}

impl<S> ResourceRegistry<S> {
    /// The resources at a fixed address, each under its address.
    pub closed spec fn fixed(&self) -> Seq<(Seq<char>, Resource<S, FixedResourceUri>)> {
        self.fixed_resources@
    }

    /// The families, in the order of their registration.
    pub closed spec fn templates(&self) -> Seq<Resource<S, TemplateResourceUri>> {
        self.template_resources@
    }

    /// The registry's invariant: no address occurs twice, and every
    /// resource stands under its own address.
    pub open spec fn wf(&self) -> bool {
        &&& distinct(self.fixed())
        &&& forall|i: int|
            0 <= i < self.fixed().len() ==> (#[trigger] self.fixed()[i]).0
                == self.fixed()[i].1@.uri.0@
    }

    /// The empty registry.
    pub fn new() -> (r: Self)
        ensures
            r.wf(),
            r.fixed() == Seq::<(Seq<char>, Resource<S, FixedResourceUri>)>::empty(),
            r.templates() == Seq::<Resource<S, TemplateResourceUri>>::empty(),
    {
        ResourceRegistry { fixed_resources: HandlerRegistry::new(), template_resources: Vec::new() }
    }

    /// Registers a resource under its address. A resource that stood under
    /// that address is replaced and keeps its place.
    pub fn register_fixed(&mut self, resource: Resource<S, FixedResourceUri>)
        requires
            old(self).wf(),
        ensures
            final(self).wf(),
            final(self).fixed() == put(old(self).fixed(), resource@.uri.0@, resource),
            final(self).templates() == old(self).templates(),
            find(final(self).fixed(), resource@.uri.0@) == Some(resource),
            forall|other: Seq<char>|
                other != resource@.uri.0@ ==> find(final(self).fixed(), other) == find(
                    old(self).fixed(),
                    other,
                ),
    {
        proof {
            lemma_put(self.fixed(), resource@.uri.0@, resource);
            let after = put(self.fixed(), resource@.uri.0@, resource);
            assert forall|i: int| 0 <= i < after.len() implies (#[trigger] after[i]).0
                == after[i].1@.uri.0@ by {
                if i < self.fixed().len() && after[i] == self.fixed()[i] {
                    assert(self.fixed()[i].0 == self.fixed()[i].1@.uri.0@);
                }
            }
        }
        let uri = resource.uri.0.clone();
        self.fixed_resources.register(uri, resource);
    }

    /// Registers a family after those that are registered already.
    pub fn register_template(&mut self, resource: Resource<S, TemplateResourceUri>)
        ensures
            old(self).wf() ==> final(self).wf(),
            final(self).fixed() == old(self).fixed(),
            final(self).templates() == old(self).templates().push(resource),
    {
        self.template_resources.push(resource);
    }

    /// The source that serves `uri`, or the error 404 with the message
    /// `Resource at uri '<uri>' not found`.
    pub fn get_source(&self, uri: &str) -> (r: Result<&S, Error>)
        requires
            self.wf(),
        ensures
            match r {
                Ok(source) => resolve(self.fixed(), self.templates(), uri@) == Some(*source),
                Err(e) => resolve(self.fixed(), self.templates(), uri@) is None && e@
                    == no_resource(uri@),
            },
    {
        match self.fixed_resources.get(uri) {
            Some(resource) => {
                return Ok(&resource.source);
            },
            None => {},
        }
        let mut i: usize = 0;
        while i < self.template_resources.len()
            invariant
                0 <= i <= self.template_resources.len(),
                find(self.fixed(), uri@) is None,
                forall|k: int|
                    0 <= k < i ==> !template_matches((#[trigger] self.templates()[k])@.uri.0@, uri@),
            decreases self.template_resources.len() - i,
        {
            let resource = &self.template_resources[i];
            if template_uri_matches(resource.uri.0.as_str(), uri) {
                proof {
                    lemma_first_match_skip(self.templates(), uri@, i as int);
                    assert(self.templates().skip(i as int)[0] == self.templates()[i as int]);
                }
                return Ok(&resource.source);
            }
            i += 1;
        }
        proof {
            lemma_first_match_skip(self.templates(), uri@, self.templates().len() as int);
            assert(self.templates().skip(self.templates().len() as int).len() == 0);
        }
        Err(Error { message: join3("Resource at uri '", uri, "' not found"), code: NOT_FOUND })
    }

    /// The source to read `uri` from; fails as `get_source` does.
    pub fn read_resource(&self, uri: &str) -> (r: Result<&S, Error>)
        requires
            self.wf(),
        ensures
            match r {
                Ok(source) => resolve(self.fixed(), self.templates(), uri@) == Some(*source),
                Err(e) => resolve(self.fixed(), self.templates(), uri@) is None && e@
                    == no_resource(uri@),
            },
    {
        self.get_source(uri)
    }

    /// The source on which to wait for a change of `uri`; fails as
    /// `get_source` does.
    pub fn wait_for_change(&self, uri: &str) -> (r: Result<&S, Error>)
        requires
            self.wf(),
        ensures
            match r {
                Ok(source) => resolve(self.fixed(), self.templates(), uri@) == Some(*source),
                Err(e) => resolve(self.fixed(), self.templates(), uri@) is None && e@
                    == no_resource(uri@),
            },
    {
        self.get_source(uri)
    }

    /// The resources at a fixed address, in the order in which their
    /// addresses were first registered.
    pub fn fixed_resources_iter(&self) -> (r: Vec<&Resource<S, FixedResourceUri>>)
        ensures
            r.len() == self.fixed().len(),
            forall|i: int| 0 <= i < r.len() ==> *(#[trigger] r[i]) == self.fixed()[i].1,
    {
        let entries = self.fixed_resources.handlers_iter();
        let mut out: Vec<&Resource<S, FixedResourceUri>> = Vec::new();
        let mut i: usize = 0;
        while i < entries.len()
            invariant
                0 <= i <= entries.len(),
                entries.len() == self.fixed().len(),
                out.len() == i,
                forall|k: int|
                    0 <= k < entries.len() ==> *(#[trigger] entries[k]).1 == self.fixed()[k].1,
                forall|k: int| 0 <= k < i ==> *(#[trigger] out[k]) == self.fixed()[k].1,
            decreases entries.len() - i,
        {
            out.push(entries[i].1);
            i += 1;
        }
        out
    }

    /// The families, in the order of their registration.
    pub fn template_resource_iter(&self) -> (r: Vec<&Resource<S, TemplateResourceUri>>)
        ensures
            r.len() == self.templates().len(),
            forall|i: int| 0 <= i < r.len() ==> *(#[trigger] r[i]) == self.templates()[i],
    {
        let mut out: Vec<&Resource<S, TemplateResourceUri>> = Vec::new();
        let mut i: usize = 0;
        while i < self.template_resources.len()
            invariant
                0 <= i <= self.template_resources.len(),
                out.len() == i,
                forall|k: int| 0 <= k < i ==> *(#[trigger] out[k]) == self.templates()[k],
            decreases self.template_resources.len() - i,
        {
            out.push(&self.template_resources[i]);
            i += 1;
        }
        out
    }

    /// The listing of the resources at a fixed address.
    pub fn list_resources(&self) -> (r: Vec<ResourceDefinition>)
        ensures
            views(r@) == fixed_definitions(self.fixed()),
    {
        let resources = self.fixed_resources_iter();
        let mut out: Vec<ResourceDefinition> = Vec::new();
        let mut i: usize = 0;
        while i < resources.len()
            invariant
                0 <= i <= resources.len(),
                resources.len() == self.fixed().len(),
                out.len() == i,
                forall|k: int|
                    0 <= k < resources.len() ==> *(#[trigger] resources[k]) == self.fixed()[k].1,
                forall|k: int|
                    0 <= k < i ==> (#[trigger] out[k])@ == resource_definition_of(
                        self.fixed()[k].1@.uri.0@,
                        self.fixed()[k].1@,
                    ),
            decreases resources.len() - i,
        {
            out.push(resources[i].definition());
            i += 1;
        }
        assert(views(out@) =~= fixed_definitions(self.fixed()));
        out
    }

    /// The listing of the families.
    pub fn list_resource_templates(&self) -> (r: Vec<ResourceDefinition>)
        ensures
            views(r@) == template_definitions(self.templates()),
    {
        let mut out: Vec<ResourceDefinition> = Vec::new();
        let mut i: usize = 0;
        while i < self.template_resources.len()
            invariant
                0 <= i <= self.template_resources.len(),
                out.len() == i,
                forall|k: int|
                    0 <= k < i ==> (#[trigger] out[k])@ == resource_definition_of(
                        self.templates()[k]@.uri.0@,
                        self.templates()[k]@,
                    ),
            decreases self.template_resources.len() - i,
        {
            out.push(self.template_resources[i].definition());
            i += 1;
        }
        assert(views(out@) =~= template_definitions(self.templates()));
        out
    }
}

/// The listing of the resources `fixed`.
pub open spec fn fixed_definitions<S>(
    fixed: Seq<(Seq<char>, Resource<S, FixedResourceUri>)>,
) -> Seq<ResourceDefinitionView> {
    Seq::new(fixed.len(), |i: int| resource_definition_of(fixed[i].1@.uri.0@, fixed[i].1@))
}

/// The listing of the families `templates`.
pub open spec fn template_definitions<S>(
    templates: Seq<Resource<S, TemplateResourceUri>>,
) -> Seq<ResourceDefinitionView> {
    Seq::new(templates.len(), |i: int| resource_definition_of(templates[i]@.uri.0@, templates[i]@))
}

impl<S> Default for ResourceRegistry<S> {
    fn default() -> (r: Self)
        ensures
            r.wf(),
            r.fixed() == Seq::<(Seq<char>, Resource<S, FixedResourceUri>)>::empty(),
            r.templates() == Seq::<Resource<S, TemplateResourceUri>>::empty(),
    {
        ResourceRegistry::new()
    }
}

} // verus!
