//! What the Java side gets to see while steps are performed.
use crate::action::{Arg, JniAction, OnError, Slot, StepView};
use crate::attributes::Rect;
use crate::host::Host;
use crate::main_pipe::TaskView;
use std::sync::Arc;
use vstd::prelude::*;

verus! {

/// A Java value, as far as this side knows how it came about. `O` stands for the objects that
/// were known before.
pub enum Thing<O> {
    /// Nothing has been left there.
    Nothing,
    /// An object that was known before.
    Given(O),
    /// The class of Java strings.
    StringClass,
    /// A string.
    Text(Seq<char>),
    /// An array of objects of a class.
    Array { class: Box<Thing<O>>, elements: Seq<Thing<O>> },
    /// A hash map, opened for entries or not, with those that were put into it, in that order.
    Table { open: bool, entries: Seq<(Thing<O>, Thing<O>)> },
    /// A new object of a class.
    Object { class: Box<Thing<O>>, constructor: Seq<char>, arguments: Seq<Thing<O>> },
    /// What a call gave.
    Answer(Box<Call<O>>),
    Bool(bool),
    Int(i32),
    /// Coordinates and extents of bounds, in physical pixels for a density.
    X { bounds: Rect, density: Box<Thing<O>> },
    Y { bounds: Rect, density: Box<Thing<O>> },
    Width { bounds: Rect, density: Box<Thing<O>> },
    Height { bounds: Rect, density: Box<Thing<O>> },
}

/// A call of a Java method, on an object, or on a class where the method is static.
pub struct Call<O> {
    pub is_static: bool,
    pub target: Thing<O>,
    pub method: Seq<char>,
    pub signature: Seq<char>,
    pub arguments: Seq<Thing<O>>,
}

/// What has happened on the Java side, and what lies in each place.
pub struct World<O> {
    pub places: Map<Slot, Thing<O>>,
    /// The display measures that the density was read from; nothing while it is one.
    pub density: Thing<O>,
    /// The bounds that were converted last, and the density for which.
    pub bounds: Option<(Rect, Thing<O>)>,
    /// The methods that were called, in their order.
    pub calls: Seq<Call<O>>,
    /// The strings that were read.
    pub read: Seq<Thing<O>>,
    /// The calls whose numbers were taken.
    pub numbers: Seq<Thing<O>>,
    /// The activities and webviews that waiting code was run with.
    pub hooks: Seq<(Thing<O>, Thing<O>)>,
    /// The objects that are kept alive from this side, in the order of the references.
    pub kept: Seq<Thing<O>>,
}

/// An object that is there or not.
pub open spec fn given<O>(object: Option<O>) -> Thing<O> {
    match object {
        Some(o) => Thing::Given(o),
        None => Thing::Nothing,
    }
}

impl<O> World<O> {
    /// Nothing has happened; an activity, a webview and a client are at hand or not.
    pub open spec fn start(activity: Option<O>, webview: Option<O>, client: Option<O>) -> World<O> {
        World::<O> {
            places: Map::new(
                |slot: Slot| true,
                |slot: Slot|
                    match slot {
                        Slot::Activity => given(activity),
                        Slot::WebView => given(webview),
                        Slot::ChromeClient => given(client),
                        _ => Thing::Nothing,
                    },
            ),
            density: Thing::Nothing,
            bounds: None,
            calls: Seq::empty(),
            read: Seq::empty(),
            numbers: Seq::empty(),
            hooks: Seq::empty(),
            kept: Seq::empty(),
        }
    }

    /// What lies in a place.
    pub open spec fn at(self, slot: Slot) -> Thing<O> {
        self.places[slot]
    }

    /// With something in a place.
    pub open spec fn put(self, slot: Slot, thing: Thing<O>) -> World<O> {
        World::<O> { places: self.places.insert(slot, thing), ..self }
    }

    /// The value of an argument.
    pub open spec fn value(self, argument: Arg) -> Thing<O> {
        match argument {
            Arg::Object(slot) => self.at(slot),
            Arg::Bool(b) => Thing::Bool(b),
            Arg::Int(n) => Thing::Int(n),
            Arg::X => match self.bounds {
                Some((bounds, density)) => Thing::X { bounds, density: Box::new(density) },
                None => Thing::Nothing,
            },
            Arg::Y => match self.bounds {
                Some((bounds, density)) => Thing::Y { bounds, density: Box::new(density) },
                None => Thing::Nothing,
            },
            Arg::Width => match self.bounds {
                Some((bounds, density)) => Thing::Width { bounds, density: Box::new(density) },
                None => Thing::Nothing,
            },
            Arg::Height => match self.bounds {
                Some((bounds, density)) => Thing::Height { bounds, density: Box::new(density) },
                None => Thing::Nothing,
            },
        }
    }

    /// The values of an argument list.
    pub open spec fn values(self, arguments: Seq<Arg>) -> Seq<Thing<O>> {
        arguments.map_values(|argument: Arg| self.value(argument))
    }

    /// After a method has been called.
    pub open spec fn with_call(self, call: Call<O>) -> World<O> {
        World::<O> { calls: self.calls.push(call), ..self }
    }

    /// After an action has been performed without a failure. `package` is that of the
    /// application.
    pub open spec fn after(
        self,
        action: JniAction<Seq<char>, Seq<Arg>>,
        package: Seq<char>,
    ) -> World<O> {
        match action {
            JniAction::FindStringClass { into } => self.put(into, Thing::StringClass),
            JniAction::NewString { text, into } => self.put(into, Thing::Text(text)),
            JniAction::NewStringArray { length, class, initial, into } => self.put(
                into,
                Thing::Array {
                    class: Box::new(self.at(class)),
                    elements: Seq::new(length as nat, |i: int| self.at(initial)),
                },
            ),
            JniAction::SetArrayElement { array, index, value } => match self.at(array) {
                Thing::Array { class, elements } => self.put(
                    array,
                    Thing::Array { class, elements: elements.update(index as int, self.at(value)) },
                ),
                _ => self,
            },
            JniAction::NewObject { class, of, arguments, into } => self.put(
                into,
                Thing::Object {
                    class: Box::new(self.at(class)),
                    constructor: of.constructor_text(package),
                    arguments: self.values(arguments),
                },
            ),
            JniAction::NewHashMap { into } => self.put(
                into,
                Thing::Table { open: false, entries: Seq::empty() },
            ),
            JniAction::OpenMap { map } => match self.at(map) {
                Thing::Table { open: _, entries } => self.put(
                    map,
                    Thing::Table { open: true, entries },
                ),
                _ => self,
            },
            JniAction::PutEntry { map, key, value } => match self.at(map) {
                Thing::Table { open, entries } => if open {
                    self.put(
                        map,
                        Thing::Table { open, entries: entries.push((self.at(key), self.at(value))) },
                    )
                } else {
                    self
                },
                _ => self,
            },
            JniAction::CallObject { target, method, arguments, into } => {
                let call = Call::<O> {
                    is_static: false,
                    target: self.at(target),
                    method: method.name_text(),
                    signature: method.signature_text(package),
                    arguments: self.values(arguments),
                };
                self.with_call(call).put(into, Thing::Answer(Box::new(call)))
            },
            JniAction::CallVoid { target, method, arguments } => self.with_call(
                Call::<O> {
                    is_static: false,
                    target: self.at(target),
                    method: method.name_text(),
                    signature: method.signature_text(package),
                    arguments: self.values(arguments),
                },
            ),
            JniAction::CallStaticVoid { class, method, arguments } => self.with_call(
                Call::<O> {
                    is_static: true,
                    target: self.at(class),
                    method: method.name_text(),
                    signature: method.signature_text(package),
                    arguments: self.values(arguments),
                },
            ),
            JniAction::CallInt { target, method } => {
                let call = Call::<O> {
                    is_static: false,
                    target: self.at(target),
                    method: method.name_text(),
                    signature: method.signature_text(package),
                    arguments: Seq::empty(),
                };
                World::<O> {
                    numbers: self.numbers.push(Thing::Answer(Box::new(call))),
                    ..self.with_call(call)
                }
            },
            JniAction::ReadText { from } => World::<O> {
                read: self.read.push(self.at(from)),
                ..self
            },
            JniAction::ReadDensity { from } => World::<O> { density: self.at(from), ..self },
            JniAction::ToPhysical { bounds } => World::<O> {
                bounds: Some((bounds, self.density)),
                ..self
            },
            JniAction::RunCreatedHook => World::<O> {
                hooks: self.hooks.push((self.at(Slot::Activity), self.at(Slot::WebView))),
                ..self
            },
            JniAction::NewGlobalRef { object } => World::<O> {
                kept: self.kept.push(self.at(object)),
                ..self
            },
        }
    }

    /// After the first `n` steps of a plan have been performed without a failure.
    pub open spec fn after_steps(self, plan: Seq<StepView>, n: nat, package: Seq<char>) -> World<O>
        decreases n,
    {
        if n == 0 {
            self
        } else {
            self.after_steps(plan, (n - 1) as nat, package).after(plan[n - 1].action, package)
        }
    }

    /// After all the steps of a plan have been performed without a failure.
    pub open spec fn after_plan(self, plan: Seq<StepView>, package: Seq<char>) -> World<O> {
        self.after_steps(plan, plan.len(), package)
    }

    /// Whether nothing but calls has happened since `before`.
    pub open spec fn only_called_since(self, before: World<O>) -> bool {
        &&& self.read == before.read
        &&& self.numbers == before.numbers
        &&& self.hooks == before.hooks
        &&& self.kept == before.kept
    }
}

/// What the Java side gets to see of a message when nothing fails.
pub open spec fn java_sees<H: Host>(task: TaskView<H>) -> World<Arc<H::Object>> {
    start_of(task).after_plan(task.run.plan, task.package)
}

/// What is at hand before the first step of a message.
pub open spec fn start_of<H: Host>(task: TaskView<H>) -> World<Arc<H::Object>> {
    World::start(task.activity, task.webview, task.chrome_client)
}

/// Whether a call is that of `method` on the object `target`, with exactly these arguments.
pub open spec fn is_java<O>(
    call: Call<O>,
    target: Thing<O>,
    method: Seq<char>,
    signature: Seq<char>,
    arguments: Seq<Thing<O>>,
) -> bool {
    &&& !call.is_static
    &&& call.target == target
    &&& call.method == method
    &&& call.signature == signature
    &&& call.arguments =~= arguments
}

/// What a call gives.
pub open spec fn answer<O>(
    target: Thing<O>,
    method: Seq<char>,
    signature: Seq<char>,
    arguments: Seq<Thing<O>>,
) -> Thing<O> {
    Thing::Answer(Box::new(Call { is_static: false, target, method, signature, arguments }))
}

pub(crate) proof fn no_values<O>(w: World<O>)
    ensures
        w.values(Seq::empty()) == Seq::<Thing<O>>::empty(),
{
    assert(w.values(Seq::empty()) =~= Seq::<Thing<O>>::empty());
}

pub(crate) proof fn one_value<O>(w: World<O>, a: Arg)
    ensures
        w.values(seq![a]) == seq![w.value(a)],
{
    assert(w.values(seq![a]) =~= seq![w.value(a)]);
}

pub(crate) proof fn two_values<O>(w: World<O>, a: Arg, b: Arg)
    ensures
        w.values(seq![a, b]) == seq![w.value(a), w.value(b)],
{
    assert(w.values(seq![a, b]) =~= seq![w.value(a), w.value(b)]);
}

pub(crate) proof fn three_values<O>(w: World<O>, a: Arg, b: Arg, c: Arg)
    ensures
        w.values(seq![a, b, c]) == seq![w.value(a), w.value(b), w.value(c)],
{
    assert(w.values(seq![a, b, c]) =~= seq![w.value(a), w.value(b), w.value(c)]);
}

pub(crate) proof fn five_values<O>(w: World<O>, a: Arg, b: Arg, c: Arg, d: Arg, e: Arg)
    ensures
        w.values(seq![a, b, c, d, e]) == seq![
            w.value(a),
            w.value(b),
            w.value(c),
            w.value(d),
            w.value(e),
        ],
{
    assert(w.values(seq![a, b, c, d, e]) =~= seq![
        w.value(a),
        w.value(b),
        w.value(c),
        w.value(d),
        w.value(e),
    ]);
}

/// Whether the failure of any step is the failure of the whole.
pub open spec fn all_must(plan: Seq<StepView>) -> bool {
    forall|i: int| 0 <= i < plan.len() ==> (#[trigger] plan[i]).on_error == OnError::Return
}

/// Performing one plan after another is performing both.
pub proof fn after_both<O>(
    world: World<O>,
    a: Seq<StepView>,
    b: Seq<StepView>,
    n: nat,
    package: Seq<char>,
)
    requires
        n <= b.len(),
    ensures
        world.after_steps(a + b, a.len() + n, package) == world.after_plan(a, package).after_steps(
            b,
            n,
            package,
        ),
    decreases n,
{
    if n == 0 {
        after_first(world, a, b, a.len(), package);
    } else {
        after_both(world, a, b, (n - 1) as nat, package);
        assert((a + b)[a.len() + n - 1] == b[n - 1]);
    }
}

proof fn after_first<O>(
    world: World<O>,
    a: Seq<StepView>,
    b: Seq<StepView>,
    n: nat,
    package: Seq<char>,
)
    requires
        n <= a.len(),
    ensures
        world.after_steps(a + b, n, package) == world.after_steps(a, n, package),
    decreases n,
{
    if n > 0 {
        after_first(world, a, b, (n - 1) as nat, package);
        assert((a + b)[n - 1] == a[n - 1]);
    }
}

} // verus!
