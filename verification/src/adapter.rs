use vstd::prelude::*;

verus! {

/// One input of a function definition: the receiver, or a typed
/// parameter carrying its pattern and its type, both as source text.
pub enum FnInput {
    Receiver,
    Param(FnParam),
}

/// A typed parameter of a function definition.
pub struct FnParam {
    pub pattern: String,
    pub ty: String,
}

/// A function definition, as far as the adapter generator reads it: its
/// name, its generic parameters, its inputs in order, its return type
/// (nothing for the unit return), and its body, all as source text.
pub struct FnDef {
    pub name: String,
    pub generics: Vec<String>,
    pub inputs: Vec<FnInput>,
    pub output: Option<String>,
    pub body: String,
}

/// The three invocation protocols a generated adapter offers.
pub enum CallProtocol {
    /// Consume the callable once.
    Once,
    /// Call it mutably, any number of times.
    Mut,
    /// Call it by reference, any number of times.
    Ref,
}

/// One synthesized protocol impl: which protocol, the name of its
/// method, whether it declares the associated output type (only the
/// consume-once impl does), and the method body it runs.
pub struct AdapterImpl {
    pub protocol: CallProtocol,
    pub method: String,
    pub declares_output: bool,
    pub body: String,
}

/// A synthesized zero-state callable record: a struct named after the
/// generating function, the patterns and types of the typed parameters
/// bundled in order into one tuple, the return type, and the three
/// protocol impls, each generic over the function's own generics.
pub struct Adapter {
    pub struct_name: String,
    pub generics: Vec<String>,
    pub arg_patterns: Vec<String>,
    pub arg_types: Vec<String>,
    pub output: Option<String>,
    pub impls: Vec<AdapterImpl>,
}

/// The patterns of the typed parameters, in order; receivers carry none.
pub open spec fn spec_patterns(inputs: Seq<FnInput>) -> Seq<String>
    decreases inputs.len(),
{
    if inputs.len() == 0 {
        Seq::empty()
    } else {
        spec_patterns(inputs.drop_last()) + (match inputs.last() {
            FnInput::Receiver => Seq::empty(),
            FnInput::Param(p) => seq![p.pattern],
        })
    }
}

/// The types of the typed parameters, in order; receivers carry none.
pub open spec fn spec_types(inputs: Seq<FnInput>) -> Seq<String>
    decreases inputs.len(),
{
    if inputs.len() == 0 {
        Seq::empty()
    } else {
        spec_types(inputs.drop_last()) + (match inputs.last() {
            FnInput::Receiver => Seq::empty(),
            FnInput::Param(p) => seq![p.ty],
        })
    }
}

/// Synthesizes the callable adapter for a function definition: a record
/// named after the function whose typed parameters are bundled, in
/// order, into one tuple of patterns and one tuple of types, and which
/// offers the three invocation protocols — consume once, call mutably,
/// call by reference, in that order, under the names `call_once`,
/// `call_mut` and `call` — each running the original body. The
/// function's generic parameters carry over, so the one generated value
/// can be invoked at several unrelated argument types.
pub fn hkt(def: &FnDef) -> (r: Adapter)
    ensures
        r.struct_name == def.name,
        r.generics@ == def.generics@,
        r.arg_patterns@ == spec_patterns(def.inputs@),
        r.arg_types@ == spec_types(def.inputs@),
        r.output == def.output,
        r.impls@.len() == 3,
        r.impls@[0].protocol is Once && r.impls@[0].method@ == "call_once"@,
        r.impls@[1].protocol is Mut && r.impls@[1].method@ == "call_mut"@,
        r.impls@[2].protocol is Ref && r.impls@[2].method@ == "call"@,
        forall|k: int| 0 <= k < 3 ==> #[trigger] r.impls@[k].body == def.body,
        forall|k: int| 0 <= k < 3 ==> (#[trigger] r.impls@[k].declares_output <==> k == 0),
{
    let mut arg_patterns: Vec<String> = Vec::new();
    let mut arg_types: Vec<String> = Vec::new();
    let mut i: usize = 0;
    while i < def.inputs.len()
        invariant
            0 <= i <= def.inputs@.len(),
            arg_patterns@ == spec_patterns(def.inputs@.subrange(0, i as int)),
            arg_types@ == spec_types(def.inputs@.subrange(0, i as int)),
        decreases def.inputs@.len() - i,
    {
        let ghost prefix = def.inputs@.subrange(0, i as int);
        match &def.inputs[i] {
            FnInput::Receiver => {},
            FnInput::Param(p) => {
                arg_patterns.push(p.pattern.clone());
                arg_types.push(p.ty.clone());
            },
        }
        proof {
            assert(def.inputs@.subrange(0, i + 1).drop_last() =~= prefix);
            assert(arg_patterns@ =~= spec_patterns(def.inputs@.subrange(0, i + 1)));
            assert(arg_types@ =~= spec_types(def.inputs@.subrange(0, i + 1)));
        }
        i += 1;
    }
    proof {
        assert(def.inputs@.subrange(0, def.inputs@.len() as int) =~= def.inputs@);
    }
    let mut generics: Vec<String> = Vec::new();
    let mut g: usize = 0;
    while g < def.generics.len()
        invariant
            0 <= g <= def.generics@.len(),
            generics@ == def.generics@.subrange(0, g as int),
        decreases def.generics@.len() - g,
    {
        generics.push(def.generics[g].clone());
        proof {
            assert(generics@ =~= def.generics@.subrange(0, g + 1));
        }
        g += 1;
    }
    proof {
        assert(def.generics@.subrange(0, def.generics@.len() as int) =~= def.generics@);
    }
    let mut impls: Vec<AdapterImpl> = Vec::new();
    impls.push(
        AdapterImpl {
            protocol: CallProtocol::Once,
            method: "call_once".to_owned(),
            declares_output: true,
            body: def.body.clone(),
        },
    );
    impls.push(
        AdapterImpl {
            protocol: CallProtocol::Mut,
            method: "call_mut".to_owned(),
            declares_output: false,
            body: def.body.clone(),
        },
    );
    impls.push(
        AdapterImpl {
            protocol: CallProtocol::Ref,
            method: "call".to_owned(),
            declares_output: false,
            body: def.body.clone(),
        },
    );
    Adapter {
        struct_name: def.name.clone(),
        generics,
        arg_patterns,
        arg_types,
        output: match &def.output {
            Some(ty) => Some(ty.clone()),
            None => None,
        },
        impls,
    }
}

} // verus!
