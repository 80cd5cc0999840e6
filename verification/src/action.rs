//! The calls into Java that the backend asks for, one at a time.
use crate::attributes::Rect;
use crate::java::{AppClass, JavaMethod};
use vstd::prelude::*;

verus! {

/// The place of a Java object while a message is handled. An action leaves its result in one,
/// and later actions take it from there.
#[derive(Clone, Copy, PartialEq, Eq, Structural, Debug)]
pub enum Slot {
    /// The activity that the message was sent to.
    Activity,
    /// The client of that activity that sees the dialogs.
    ChromeClient,
    /// The webview that the message is for.
    WebView,
    StringClass,
    Text,
    Scripts,
    WebViewId,
    HostActivity,
    ClassLoader,
    ClassName,
    WebViewClass,
    Settings,
    UserAgent,
    Url,
    Html,
    Headers,
    HeaderName,
    HeaderValue,
    ClientClass,
    Client,
    IpcClass,
    Ipc,
    IpcName,
    Resources,
    DisplayMetrics,
    Answer,
    WindowManager,
    ChromeClientClass,
}

/// An argument of a Java call.
#[derive(Clone, Copy, PartialEq, Eq, Structural, Debug)]
pub enum Arg {
    /// The object in a place.
    Object(Slot),
    Bool(bool),
    Int(i32),
    /// The coordinates and extents that the last conversion of bounds gave, in physical pixels.
    X,
    Y,
    Width,
    Height,
}

/// Something to be done on the Java side. `T` stands for texts and `A` for argument lists.
#[derive(PartialEq, Eq, Debug)]
pub enum JniAction<T, A> {
    /// Finds the class of Java strings.
    FindStringClass { into: Slot },
    /// Makes a Java string.
    NewString { text: T, into: Slot },
    /// Makes an array of strings; every element is `initial` at first.
    NewStringArray { length: i32, class: Slot, initial: Slot, into: Slot },
    /// Sets one element of an array.
    SetArrayElement { array: Slot, index: i32, value: Slot },
    /// Makes an object of a class of the application.
    NewObject { class: Slot, of: AppClass, arguments: A, into: Slot },
    /// Makes an empty `java.util.HashMap`.
    NewHashMap { into: Slot },
    /// Gets ready to put entries into a map.
    OpenMap { map: Slot },
    /// Puts an entry into a map.
    PutEntry { map: Slot, key: Slot, value: Slot },
    /// Calls a method that gives an object.
    CallObject { target: Slot, method: JavaMethod, arguments: A, into: Slot },
    /// Calls a method whose result does not matter.
    CallVoid { target: Slot, method: JavaMethod, arguments: A },
    /// Calls a static method whose result does not matter.
    CallStaticVoid { class: Slot, method: JavaMethod, arguments: A },
    /// Calls a method that gives a number; the number is the outcome.
    CallInt { target: Slot, method: JavaMethod },
    /// Reads a Java string; the text is the outcome.
    ReadText { from: Slot },
    /// Reads the density of the display, to be used in later conversions of bounds. Until one
    /// has been read the density is one.
    ReadDensity { from: Slot },
    /// Converts bounds to physical pixels with the density of the display.
    ToPhysical { bounds: Rect },
    /// Runs the code that waits for the creation of the webview.
    RunCreatedHook,
    /// Keeps an object alive; the reference to it is the outcome.
    NewGlobalRef { object: Slot },
}

impl View for JniAction<String, Vec<Arg>> {
    type V = JniAction<Seq<char>, Seq<Arg>>;

    open spec fn view(&self) -> JniAction<Seq<char>, Seq<Arg>> {
        match *self {
            JniAction::FindStringClass { into } => JniAction::FindStringClass { into },
            JniAction::NewString { text, into } => JniAction::NewString { text: text@, into },
            JniAction::NewStringArray { length, class, initial, into } => {
                JniAction::NewStringArray { length, class, initial, into }
            },
            JniAction::SetArrayElement { array, index, value } => {
                JniAction::SetArrayElement { array, index, value }
            },
            JniAction::NewObject { class, of, arguments, into } => {
                JniAction::NewObject { class, of, arguments: arguments@, into }
            },
            JniAction::NewHashMap { into } => JniAction::NewHashMap { into },
            JniAction::OpenMap { map } => JniAction::OpenMap { map },
            JniAction::PutEntry { map, key, value } => JniAction::PutEntry { map, key, value },
            JniAction::CallObject { target, method, arguments, into } => {
                JniAction::CallObject { target, method, arguments: arguments@, into }
            },
            JniAction::CallVoid { target, method, arguments } => {
                JniAction::CallVoid { target, method, arguments: arguments@ }
            },
            JniAction::CallStaticVoid { class, method, arguments } => {
                JniAction::CallStaticVoid { class, method, arguments: arguments@ }
            },
            JniAction::CallInt { target, method } => JniAction::CallInt { target, method },
            JniAction::ReadText { from } => JniAction::ReadText { from },
            JniAction::ReadDensity { from } => JniAction::ReadDensity { from },
            JniAction::ToPhysical { bounds } => JniAction::ToPhysical { bounds },
            JniAction::RunCreatedHook => JniAction::RunCreatedHook,
            JniAction::NewGlobalRef { object } => JniAction::NewGlobalRef { object },
        }
    }
}

/// What happens when an action fails.
#[derive(Clone, Copy, PartialEq, Eq, Structural, Debug)]
pub enum OnError {
    /// The handling of the message ends with the error.
    Return,
    /// The remaining actions are left out, and the message is concluded with the error.
    Conclude,
    /// The next so many actions are left out; the error is forgotten.
    Skip(usize),
}

/// An action, and what happens when it fails.
#[derive(PartialEq, Eq, Debug)]
pub struct Step<T, A> {
    pub action: JniAction<T, A>,
    pub on_error: OnError,
}

/// A step to be performed.
pub type JniStep = Step<String, Vec<Arg>>;

/// The contents of a step.
pub type StepView = Step<Seq<char>, Seq<Arg>>;

impl View for Step<String, Vec<Arg>> {
    type V = Step<Seq<char>, Seq<Arg>>;

    open spec fn view(&self) -> Step<Seq<char>, Seq<Arg>> {
        Step { action: self.action@, on_error: self.on_error }
    }
}

impl<T, A> JniAction<T, A> {
    /// The step that performs the action and whose failure is the failure of the whole.
    pub open spec fn must(self) -> Step<T, A> {
        Step { action: self, on_error: OnError::Return }
    }

    /// The step that performs the action and whose failure concludes the message.
    pub open spec fn or_conclude(self) -> Step<T, A> {
        Step { action: self, on_error: OnError::Conclude }
    }

    /// The step that performs the action and whose failure leaves out the next `n` steps.
    pub open spec fn or_skip(self, n: nat) -> Step<T, A> {
        Step { action: self, on_error: OnError::Skip(n as usize) }
    }
}

} // verus!
