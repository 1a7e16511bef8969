//! The client's configuration: where the API lives, what a sync reads, and
//! the resources with the operations allowed on each.

use vstd::prelude::*;
use crate::json::{json_keys, json_member, keys, member};
use crate::text::{contains_text, same_text};

verus! {

/// One resource of the API, as the configuration describes it.
#[derive(Clone, Debug, PartialEq, Eq)]
pub struct Resource {
    pub name: String,
    /// What the configuration says of the resource, as compact JSON.
    pub definition: String,
    /// The names of the operations allowed on the resource.
    pub ops: Vec<String>,
}

/// The mathematical content of a [`Resource`].
pub struct ResourceView {
    pub name: Seq<char>,
    pub definition: Seq<char>,
    pub ops: Seq<Seq<char>>,
}

impl View for Resource {
    type V = ResourceView;

    open spec fn view(&self) -> ResourceView {
        ResourceView {
            name: self.name@,
            definition: self.definition@,
            ops: self.ops.deep_view(),
        }
    }
}

impl DeepView for Resource {
    type V = ResourceView;

    open spec fn deep_view(&self) -> ResourceView {
        self@
    }
}

/// The configuration of the client.
#[derive(Clone, Debug, PartialEq, Eq)]
pub struct Config {
    pub app_name: String,
    pub base_path: String,
    pub config_sync_resource_name: String,
    pub config_sync_field_name: String,
    pub origin: String,
    pub resources: Vec<Resource>,
}

/// The mathematical content of a [`Config`].
pub struct ConfigView {
    pub app_name: Seq<char>,
    pub base_path: Seq<char>,
    pub config_sync_resource_name: Seq<char>,
    pub config_sync_field_name: Seq<char>,
    pub origin: Seq<char>,
    pub resources: Seq<ResourceView>,
}

impl View for Config {
    type V = ConfigView;

    open spec fn view(&self) -> ConfigView {
        ConfigView {
            app_name: self.app_name@,
            base_path: self.base_path@,
            config_sync_resource_name: self.config_sync_resource_name@,
            config_sync_field_name: self.config_sync_field_name@,
            origin: self.origin@,
            resources: self.resources.deep_view(),
        }
    }
}

/// The resource called `name` with the given definition and operations,
/// each empty where there is none.
pub open spec fn described_of(
    name: Seq<char>,
    definition: Option<Seq<char>>,
    ops: Option<Seq<Seq<char>>>,
) -> ResourceView {
    ResourceView {
        name,
        definition: match definition {
            Some(definition) => definition,
            None => Seq::empty(),
        },
        ops: match ops {
            Some(ops) => ops,
            None => Seq::empty(),
        },
    }
}

/// The operations that a resource's definition names: the member names of
/// its `ops` object, if it has one.
pub open spec fn ops_of(definition: Option<Seq<char>>) -> Option<Seq<Seq<char>>> {
    match definition {
        Some(definition) => match json_member(definition, "ops"@) {
            Some(ops) => json_keys(ops),
            None => None,
        },
        None => None,
    }
}

/// The resource that the member `name` of the resource map `text` describes.
pub open spec fn resource_of(text: Seq<char>, name: Seq<char>) -> ResourceView {
    described_of(name, json_member(text, name), ops_of(json_member(text, name)))
}

/// The resources that the JSON resource map `text` describes: one for each
/// member of the object, in the object's order, and none where `text` is not
/// a JSON object.
pub open spec fn resources_of(text: Seq<char>) -> Seq<ResourceView> {
    match json_keys(text) {
        Some(names) => Seq::new(names.len(), |i: int| resource_of(text, names[i])),
        None => Seq::empty(),
    }
}

/// The first of `resources` that is called `name`.
pub open spec fn lookup(resources: Seq<ResourceView>, name: Seq<char>) -> Option<ResourceView>
    decreases resources.len(),
{
    if resources.len() == 0 {
        None
    } else if resources[0].name == name {
        Some(resources[0])
    } else {
        lookup(resources.drop_first(), name)
    }
}

/// The names of `resources`, in their order.
pub open spec fn names_of(resources: Seq<ResourceView>) -> Seq<Seq<char>> {
    Seq::new(resources.len(), |i: int| resources[i].name)
}

/// Looking a name up from position `from` on finds what looking it up in the
/// whole list finds, as long as no earlier resource has the name.
proof fn lookup_skips(resources: Seq<ResourceView>, name: Seq<char>, from: int)
    requires
        0 <= from <= resources.len(),
        forall|j: int| 0 <= j < from ==> resources[j].name != name,
    ensures
        lookup(resources, name) == lookup(resources.subrange(from, resources.len() as int), name),
    decreases from,
{
    if from == 0 {
        assert(resources.subrange(0, resources.len() as int) =~= resources);
    } else {
        lookup_skips(resources, name, from - 1);
        let tail = resources.subrange(from - 1, resources.len() as int);
        assert(tail[0] == resources[from - 1]);
        assert(tail.drop_first() =~= resources.subrange(from, resources.len() as int));
    }
}

/// Every resource of a list is found under its name: looking the name up
/// finds a resource of that name, the listed one or an earlier namesake.
pub proof fn listed_resources_are_found(resources: Seq<ResourceView>, i: int)
    requires
        0 <= i < resources.len(),
    ensures
        lookup(resources, resources[i].name) matches Some(found) && found.name
            == resources[i].name,
    decreases resources.len(),
{
    if resources[0].name != resources[i].name {
        listed_resources_are_found(resources.drop_first(), i - 1);
    }
}

/// The operations that a resource's definition names.
fn ops_from_json(definition: &Option<String>) -> (r: Option<Vec<String>>)
    ensures
        r.deep_view() == ops_of(definition.deep_view()),
{
    match definition {
        Some(definition) => match member(definition.as_str(), "ops") {
            Some(ops) => keys(ops.as_str()),
            None => None,
        },
        None => None,
    }
}

impl Resource {
    /// The resource called `name` with the given definition and operations.
    /// A resource without a definition has the empty one, and a resource
    /// whose definition names no operations allows none.
    pub fn described(name: String, definition: Option<String>, ops: Option<Vec<String>>) -> (r:
        Resource)
        ensures
            r@ == described_of(name@, definition.deep_view(), ops.deep_view()),
    {
        let definition = match definition {
            Some(definition) => definition,
            None => String::new(),
        };
        let ops = match ops {
            Some(ops) => ops,
            None => {
                let none: Vec<String> = Vec::new();
                assert(none.deep_view() =~= Seq::<Seq<char>>::empty());
                none
            },
        };
        Resource { name, definition, ops }
    }

    /// Reads the resources out of the JSON resource map `text`, an object
    /// that holds for each resource's name its definition. Text that is not a
    /// JSON object describes no resource.
    pub fn list_from_json(text: &str) -> (r: Vec<Resource>)
        ensures
            r.deep_view() == resources_of(text@),
    {
        let mut out: Vec<Resource> = Vec::new();
        match keys(text) {
            None => {
                assert(out.deep_view() =~= resources_of(text@));
            },
            Some(names) => {
                let mut i: usize = 0;
                while i < names.len()
                    invariant
                        i <= names.len(),
                        json_keys(text@) == Some(names.deep_view()),
                        out.len() == i,
                        forall|j: int|
                            0 <= j < i ==> (#[trigger] out[j])@ == resource_of(
                                text@,
                                names[j]@,
                            ),
                    decreases names.len() - i,
                {
                    let name = names[i].clone();
                    let definition = member(text, name.as_str());
                    let ops = ops_from_json(&definition);
                    out.push(Resource::described(name, definition, ops));
                    i += 1;
                }
                assert(out.deep_view() =~= resources_of(text@));
            },
        }
        out
    }

    /// Whether the operation `op` is allowed on the resource.
    pub fn allows(&self, op: &str) -> (r: bool)
        ensures
            r == self@.ops.contains(op@),
    {
        contains_text(&self.ops, op)
    }
}

impl Config {
    /// The configuration of the given values, with the resources that the JSON
    /// resource map `resources` describes.
    pub fn new(
        app_name: String,
        base_path: String,
        config_sync_resource_name: String,
        config_sync_field_name: String,
        origin: String,
        resources: &str,
    ) -> (r: Config)
        ensures
            r@ == (ConfigView {
                app_name: app_name@,
                base_path: base_path@,
                config_sync_resource_name: config_sync_resource_name@,
                config_sync_field_name: config_sync_field_name@,
                origin: origin@,
                resources: resources_of(resources@),
            }),
    {
        Config {
            app_name,
            base_path,
            config_sync_resource_name,
            config_sync_field_name,
            origin,
            resources: Resource::list_from_json(resources),
        }
    }

    /// The names of the configured resources, in their order.
    pub fn resource_names(&self) -> (r: Vec<String>)
        ensures
            r.deep_view() == names_of(self@.resources),
    {
        let mut out: Vec<String> = Vec::new();
        let mut i: usize = 0;
        while i < self.resources.len()
            invariant
                i <= self.resources.len(),
                out.len() == i,
                forall|j: int| 0 <= j < i ==> (#[trigger] out[j])@ == self.resources[j].name@,
            decreases self.resources.len() - i,
        {
            out.push(self.resources[i].name.clone());
            i += 1;
        }
        assert(out.deep_view() =~= names_of(self@.resources));
        out
    }

    /// The configured resource called `name`: the first, should several
    /// carry the name.
    pub fn resource(&self, name: &str) -> (r: Option<&Resource>)
        ensures
            r.deep_view() == lookup(self@.resources, name@),
    {
        let mut i: usize = 0;
        while i < self.resources.len()
            invariant
                i <= self.resources.len(),
                forall|j: int| 0 <= j < i ==> self@.resources[j].name != name@,
            decreases self.resources.len() - i,
        {
            if same_text(self.resources[i].name.as_str(), name) {
                proof {
                    lookup_skips(self@.resources, name@, i as int);
                    assert(self@.resources.subrange(i as int, self@.resources.len() as int)[0]
                        == self@.resources[i as int]);
                }
                return Some(&self.resources[i]);
            }
            i += 1;
        }
        proof {
            lookup_skips(self@.resources, name@, i as int);
        }
        None
    }
}

} // verus!
