use vstd::prelude::*;
use crate::event::sample_record;

verus! {

/// How samples are encoded for an external process.
#[derive(Debug, Clone, Copy, PartialEq, Eq, Structural)]
pub enum Format {
    /// A counted record: the count as a little-endian `u64`, then each sample
    /// as four little-endian bytes.
    Binary,
    /// Each sample as decimal text.
    Plain,
}

impl Default for Format {
    fn default() -> (r: Format)
        ensures
            r == Format::Plain,
    {
        Format::Plain
    }
}

/// Where samples travel to or from an external process.
#[derive(Debug, Clone)]
pub enum LocationDescriptor {
    CmdArgs,
    File(String),
    Stdin,
    Stdout,
}

/// One side of an exchange with an external process.
pub struct Interface {
    pub location: LocationDescriptor,
    pub format: Format,
}

/// Which transformation a node runs.
pub enum FunctionSpec {
    /// Hand the input on unchanged.
    Echo,
    /// Call `symbol` of the native module at `lib_path`.
    Lib { lib_path: String, symbol: String },
    /// Run the executable at `exec_path` once per invocation.
    Exec { exec_path: String, input: Interface, output: Interface },
}

/// Why an invocation failed.
#[derive(Debug, Clone, Copy, PartialEq, Eq, Structural)]
pub enum InvokeError {
    /// Packed binary cannot be carried as discrete arguments.
    BinaryArguments,
    /// A file or the output stream cannot carry a process's input.
    UnsupportedInput,
    /// The samples could not be packed.
    Encoding,
    /// The native module could not be loaded.
    ModuleNotFound,
    /// The module exports no routine of that name.
    SymbolNotFound,
    /// The routine handed back no result.
    NoOutput,
    /// The process could not be started or awaited.
    Spawn,
    /// A token of the process's output is not a number.
    Decode,
}

/// The channel through which a process receives its samples.
#[derive(Debug, Clone, Copy, PartialEq, Eq, Structural)]
pub enum Channel {
    /// One decimal argument per sample, in order.
    Arguments,
    /// Decimal text on standard input, one sample per line.
    InputText,
    /// A counted binary record on standard input.
    InputBinary,
}

/// The channel that an input interface calls for, or why it is refused.
pub open spec fn input_channel(i: Interface) -> Result<Channel, InvokeError> {
    match i.location {
        LocationDescriptor::CmdArgs => match i.format {
            Format::Plain => Ok(Channel::Arguments),
            Format::Binary => Err(InvokeError::BinaryArguments),
        },
        LocationDescriptor::Stdin => match i.format {
            Format::Plain => Ok(Channel::InputText),
            Format::Binary => Ok(Channel::InputBinary),
        },
        LocationDescriptor::File(_) => Err(InvokeError::UnsupportedInput),
        LocationDescriptor::Stdout => Err(InvokeError::UnsupportedInput),
    }
}

/// The channel through which a process with input interface `i` receives its
/// samples; packed binary as arguments, a file and the output stream are refused.
pub fn plan_input(i: &Interface) -> (r: Result<Channel, InvokeError>)
    ensures
        r == input_channel(*i),
{
    match i.location {
        LocationDescriptor::CmdArgs => match i.format {
            Format::Plain => Ok(Channel::Arguments),
            Format::Binary => Err(InvokeError::BinaryArguments),
        },
        LocationDescriptor::Stdin => match i.format {
            Format::Plain => Ok(Channel::InputText),
            Format::Binary => Ok(Channel::InputBinary),
        },
        LocationDescriptor::File(_) => Err(InvokeError::UnsupportedInput),
        LocationDescriptor::Stdout => Err(InvokeError::UnsupportedInput),
    }
}

/// Relies on bincode::serialize (bincode 1: fixed-width little-endian
/// integers): a sequence is its length as a `u64`, then each `u32` element as
/// four bytes.
#[verifier::external_body]
fn bincode_record(samples: &Vec<u32>) -> (r: Option<Vec<u8>>)
    ensures
        r matches Some(b) ==> b@ == sample_record(samples@),
{
    bincode::serialize(samples).ok()
}

/// What remains to be done to turn an input into an output.
pub enum Invocation {
    /// The output is known already.
    Done(Vec<u32>),
    /// Call the native routine on these samples.
    Native(Vec<u32>),
    /// Run the executable with each sample rendered as one decimal argument.
    Arguments(Vec<u32>),
    /// Run the executable with each sample rendered as decimal text, one per
    /// line, on its standard input.
    InputText(Vec<u32>),
    /// Run the executable with these bytes on its standard input.
    InputBytes(Vec<u8>),
}

/// The work that `spec` calls for on `input`. Echo is done at once with the
/// input unchanged; a refused input interface fails before any process runs.
pub fn prepare(spec: &FunctionSpec, input: Vec<u32>) -> (r: Result<Invocation, InvokeError>)
    ensures
        match *spec {
            FunctionSpec::Echo => r matches Ok(Invocation::Done(v)) && v@ == input@,
            FunctionSpec::Lib { .. } => r matches Ok(Invocation::Native(v)) && v@ == input@,
            FunctionSpec::Exec { input: i, .. } => match input_channel(i) {
                Err(e) => r == Err::<Invocation, InvokeError>(e),
                Ok(Channel::Arguments) => r matches Ok(Invocation::Arguments(v)) && v@ == input@,
                Ok(Channel::InputText) => r matches Ok(Invocation::InputText(v)) && v@ == input@,
                Ok(Channel::InputBinary) => match r {
                    Ok(Invocation::InputBytes(b)) => b@ == sample_record(input@),
                    Err(e) => e == InvokeError::Encoding,
                    _ => false,
                },
            },
        },
{
    match spec {
        FunctionSpec::Echo => Ok(Invocation::Done(input)),
        FunctionSpec::Lib { .. } => Ok(Invocation::Native(input)),
        FunctionSpec::Exec { input: i, .. } => match plan_input(i) {
            Err(e) => Err(e),
            Ok(Channel::Arguments) => Ok(Invocation::Arguments(input)),
            Ok(Channel::InputText) => Ok(Invocation::InputText(input)),
            Ok(Channel::InputBinary) => match bincode_record(&input) {
                Some(b) => Ok(Invocation::InputBytes(b)),
                None => Err(InvokeError::Encoding),
            },
        },
    }
}

/// Rendered samples joined by newlines, with none after the last.
pub open spec fn lines(texts: Seq<Seq<u8>>) -> Seq<u8>
    decreases texts.len(),
{
    if texts.len() == 0 {
        Seq::empty()
    } else if texts.len() == 1 {
        texts[0]
    } else {
        lines(texts.drop_last()) + seq![10u8] + texts.last()
    }
}

/// The bytes written to a process's input for rendered samples: each text,
/// with a newline between neighbours.
pub fn join_lines(texts: &Vec<Vec<u8>>) -> (r: Vec<u8>)
    ensures
        r@ == lines(texts@.map_values(|t: Vec<u8>| t@)),
{
    let ghost all = texts@.map_values(|t: Vec<u8>| t@);
    let mut out: Vec<u8> = Vec::new();
    let mut i: usize = 0;
    while i < texts.len()
        invariant
            i <= texts.len(),
            all == texts@.map_values(|t: Vec<u8>| t@),
            out@ == lines(all.take(i as int)),
        decreases texts.len() - i,
    {
        if i > 0 {
            out.push(10u8);
        }
        let t = &texts[i];
        let mut j: usize = 0;
        let ghost base = out@;
        while j < t.len()
            invariant
                j <= t.len(),
                out@ == base + t@.take(j as int),
            decreases t.len() - j,
        {
            out.push(t[j]);
            j = j + 1;
            assert(out@ =~= base + t@.take(j as int));
        }
        assert(all.take(i + 1).drop_last() =~= all.take(i as int));
        assert(t@.take(j as int) =~= t@);
        if i == 0 {
            assert(out@ =~= lines(all.take(1)));
        } else {
            assert(out@ =~= lines(all.take(i + 1)));
        }
        i = i + 1;
    }
    assert(all.take(i as int) =~= all);
    out
}

} // verus!
