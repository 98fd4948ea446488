use vstd::prelude::*;

verus! {

/// The two native capabilities the host grants every script.
#[derive(Clone, Copy, Debug, PartialEq, Eq, Structural)]
pub enum Capability {
    /// Coerce the one argument to text and emit a `console.log:` line.
    Log,
    /// Pause the host thread for the requested duration, then emit the
    /// elapsed line; the callback is never invoked.
    Delay,
}

/// A binding descriptor of the global scope template: a native capability, or
/// a namespace object holding further named bindings.
#[derive(Debug)]
pub enum BindingValue {
    Native(Capability),
    Namespace(Vec<NamedBinding>),
}

/// One named entry of the global scope template.
#[derive(Debug)]
pub struct NamedBinding {
    pub name: String,
    pub value: BindingValue,
}

/// Builds the global scope template that every run installs into its context
/// before compiling anything: the logging capability as `log` nested under
/// the console-like namespace object `console2`, and the delay capability
/// bound directly at top level as `setTimeout`. Built once per run and
/// immutable afterwards.
pub fn global_scope_template() -> (template: Vec<NamedBinding>)
    ensures
        template@.len() == 2,
        template@[0].name@ == "console2"@,
        template@[0].value matches BindingValue::Namespace(entries) && entries@.len() == 1
            && entries@[0].name@ == "log"@ && entries@[0].value == BindingValue::Native(
            Capability::Log,
        ),
        template@[1].name@ == "setTimeout"@,
        template@[1].value == BindingValue::Native(Capability::Delay),
{
    let mut console_entries: Vec<NamedBinding> = Vec::new();
    console_entries.push(
        NamedBinding { name: "log".to_owned(), value: BindingValue::Native(Capability::Log) },
    );
    let mut template: Vec<NamedBinding> = Vec::new();
    template.push(
        NamedBinding {
            name: "console2".to_owned(),
            value: BindingValue::Namespace(console_entries),
        },
    );
    template.push(
        NamedBinding {
            name: "setTimeout".to_owned(),
            value: BindingValue::Native(Capability::Delay),
        },
    );
    template
}

} // verus!
