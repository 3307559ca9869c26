//! What the pallet macro generates for a pallet's dispatchable calls: one
//! variant of the `Call` enum per call method, with its index, its argument
//! fields, its weight, the storage layer its body runs in and its fee-less
//! check, and the warnings about calls without an explicit index. The
//! tokens themselves are written from this plan outside the library.

use vstd::prelude::*;

verus! {

/// What a call method returns.
#[derive(Debug, Clone, Copy, PartialEq, Eq, Structural)]
pub enum CallReturnType {
    /// `DispatchResult`.
    DispatchResult,
    /// `DispatchResultWithPostInfo`.
    DispatchResultWithPostInfo,
}

/// How the weight of a call (or of its authorization) is given.
#[derive(Debug, Clone, Copy, PartialEq, Eq, Structural)]
pub enum CallWeightKind {
    /// Not given, in dev mode: zero.
    DevModeDefault,
    /// Given by an expression.
    Immediate,
    /// Inherited from the pallet's weight information.
    Inherited,
}

/// An argument of a call method: its name and whether it is encoded compactly.
#[derive(Debug, Clone, PartialEq, Eq)]
pub struct CallArgModel {
    /// The argument's name.
    pub name: String,
    /// Whether the argument is encoded compactly.
    pub is_compact: bool,
}

/// A call method as the pallet declares it.
#[derive(Debug, Clone, PartialEq, Eq)]
pub struct CallMethodModel {
    /// The method's name.
    pub name: String,
    /// The call index.
    pub call_index: u8,
    /// Whether the index is given explicitly.
    pub explicit_call_index: bool,
    /// The arguments, after the origin.
    pub args: Vec<CallArgModel>,
    /// What the method returns.
    pub return_type: CallReturnType,
    /// How its weight is given.
    pub weight: CallWeightKind,
    /// Whether it has its own fee-less check.
    pub has_feeless_check: bool,
    /// How the weight of its authorization is given, if it has one.
    pub authorize: Option<CallWeightKind>,
}

/// The weight that a call variant reports.
#[derive(Debug, Clone, PartialEq, Eq)]
pub enum WeightPlan {
    /// Zero.
    Zero,
    /// The given expression.
    Immediate,
    /// The function of the pallet's weight information with this name.
    WeightInfoCall(String),
}

/// The `Ok` and `Err` types of the storage layer that a call's body runs in.
#[derive(Debug, Clone, Copy, PartialEq, Eq, Structural)]
pub enum StorageLayerTypes {
    /// `()` and `DispatchError`.
    UnitAndDispatchError,
    /// `PostDispatchInfo` and `DispatchErrorWithPostInfo`.
    PostInfoAndErrorWithPostInfo,
}

/// A field of a call variant: the argument's name, and the field's name,
/// which is the argument's name without its leading underscores.
#[derive(Debug, Clone, PartialEq, Eq)]
pub struct CallFieldPlan {
    /// The name the method binds.
    pub binding: String,
    /// The name of the variant's field.
    pub field: String,
    /// Whether the field is encoded compactly.
    pub is_compact: bool,
}

/// The variant of the `Call` enum generated for a call method.
#[derive(Debug, Clone, PartialEq, Eq)]
pub struct CallVariantPlan {
    /// The variant's name: the method's name.
    pub name: String,
    /// The call index.
    pub call_index: u8,
    /// The name of the variant's constructor.
    pub constructor: String,
    /// The documentation of the variant's constructor.
    pub constructor_doc: String,
    /// The fields.
    pub fields: Vec<CallFieldPlan>,
    /// The weight of the call.
    pub weight: WeightPlan,
    /// Whether the call has an authorization function, and if so the
    /// weight of that authorization. Without one, the call is never
    /// authorized and its authorization weighs nothing.
    pub authorize: Option<WeightPlan>,
    /// The storage layer that the body runs in.
    pub storage_layer: StorageLayerTypes,
    /// Whether the default fee-less check (never fee-less) is used.
    pub default_feeless: bool,
}

/// What is generated for a pallet's calls.
#[derive(Debug, Clone, PartialEq, Eq)]
pub struct CallExpansionPlan {
    /// One variant per call method, in order.
    pub variants: Vec<CallVariantPlan>,
    /// The methods warned of for an implicit call index, in order.
    pub implicit_index_warnings: Vec<String>,
    /// Whether the pallet defines its calls (otherwise a compile error is
    /// generated).
    pub call_part_defined: bool,
}

/// A weight, as values.
pub enum WeightSpec {
    /// Zero.
    Zero,
    /// The given expression.
    Immediate,
    /// The weight-information function with this name.
    WeightInfoCall(Seq<char>),
}

/// A field, as values.
pub struct FieldSpec {
    /// The bound name.
    pub binding: Seq<char>,
    /// The field's name.
    pub field: Seq<char>,
    /// Compact encoding.
    pub is_compact: bool,
}

/// A variant, as values.
pub struct VariantSpec {
    /// The name.
    pub name: Seq<char>,
    /// The call index.
    pub call_index: u8,
    /// The constructor's name.
    pub constructor: Seq<char>,
    /// The constructor's documentation.
    pub constructor_doc: Seq<char>,
    /// The fields.
    pub fields: Seq<FieldSpec>,
    /// The weight.
    pub weight: WeightSpec,
    /// The authorization's weight, if the call has an authorization.
    pub authorize: Option<WeightSpec>,
    /// The storage layer.
    pub storage_layer: StorageLayerTypes,
    /// The default fee-less check is used.
    pub default_feeless: bool,
}

/// The values of a weight plan.
pub open spec fn weight_view(w: WeightPlan) -> WeightSpec {
    match w {
        WeightPlan::Zero => WeightSpec::Zero,
        WeightPlan::Immediate => WeightSpec::Immediate,
        WeightPlan::WeightInfoCall(n) => WeightSpec::WeightInfoCall(n@),
    }
}

/// The values of a field plan.
pub open spec fn field_view(f: CallFieldPlan) -> FieldSpec {
    FieldSpec { binding: f.binding@, field: f.field@, is_compact: f.is_compact }
}

/// The values of a variant plan.
pub open spec fn variant_view(v: CallVariantPlan) -> VariantSpec {
    VariantSpec {
        name: v.name@,
        call_index: v.call_index,
        constructor: v.constructor@,
        constructor_doc: v.constructor_doc@,
        fields: v.fields@.map_values(|f: CallFieldPlan| field_view(f)),
        weight: weight_view(v.weight),
        authorize: match v.authorize {
            Some(w) => Some(weight_view(w)),
            None => None,
        },
        storage_layer: v.storage_layer,
        default_feeless: v.default_feeless,
    }
}

/// The number of underscores that `s` starts with.
pub open spec fn leading_underscores(s: Seq<char>) -> nat
    decreases s.len(),
{
    if s.len() > 0 && s[0] == '_' {
        1 + leading_underscores(s.drop_first())
    } else {
        0
    }
}

/// `s` without its leading underscores.
pub open spec fn trim_underscores(s: Seq<char>) -> Seq<char> {
    s.subrange(leading_underscores(s) as int, s.len() as int)
}

/// The weight of a method whose weight is given as `kind`: zero in dev mode
/// without a weight, the expression if one is given, else the function of
/// the pallet's weight information named by the prefix and the method.
pub open spec fn weight_of(prefix: Seq<char>, name: Seq<char>, kind: CallWeightKind) -> WeightSpec {
    match kind {
        CallWeightKind::DevModeDefault => WeightSpec::Zero,
        CallWeightKind::Immediate => WeightSpec::Immediate,
        CallWeightKind::Inherited => WeightSpec::WeightInfoCall(prefix + name),
    }
}

/// The storage layer of a method returning `t`.
pub open spec fn storage_layer_of(t: CallReturnType) -> StorageLayerTypes {
    match t {
        CallReturnType::DispatchResult => StorageLayerTypes::UnitAndDispatchError,
        CallReturnType::DispatchResultWithPostInfo => StorageLayerTypes::PostInfoAndErrorWithPostInfo,
    }
}

/// The field generated for an argument.
pub open spec fn field_of(a: CallArgModel) -> FieldSpec {
    FieldSpec { binding: a.name@, field: trim_underscores(a.name@), is_compact: a.is_compact }
}

/// The variant generated for a method.
pub open spec fn variant_of(m: CallMethodModel) -> VariantSpec {
    VariantSpec {
        name: m.name@,
        call_index: m.call_index,
        constructor: "new_call_variant_"@ + m.name@,
        constructor_doc: "Create a call with the variant `"@ + m.name@ + "`."@,
        fields: m.args@.map_values(|a: CallArgModel| field_of(a)),
        weight: weight_of(Seq::empty(), m.name@, m.weight),
        authorize: match m.authorize {
            Some(k) => Some(weight_of("authorize_"@, m.name@, k)),
            None => None,
        },
        storage_layer: storage_layer_of(m.return_type),
        default_feeless: !m.has_feeless_check,
    }
}

/// The names of the methods without an explicit call index, in order.
pub open spec fn implicit_indices(ms: Seq<CallMethodModel>) -> Seq<Seq<char>>
    decreases ms.len(),
{
    if ms.len() == 0 {
        Seq::empty()
    } else {
        implicit_indices(ms.drop_last()) + if ms.last().explicit_call_index {
            Seq::<Seq<char>>::empty()
        } else {
            seq![ms.last().name@]
        }
    }
}

/// The characters of each string of a sequence.
pub open spec fn names_view(v: Seq<String>) -> Seq<Seq<char>> {
    v.map_values(|s: String| s@)
}

proof fn lemma_leading_underscores(s: Seq<char>, i: int)
    requires
        0 <= i <= s.len(),
        forall|j: int| 0 <= j < i ==> s[j] == '_',
        i == s.len() || s[i] != '_',
    ensures
        leading_underscores(s) == i,
    decreases i,
{
    if i > 0 {
        assert(s.len() > 0 && s[0] == '_');
        let t = s.drop_first();
        assert forall|j: int| 0 <= j < i - 1 implies t[j] == '_' by {
            assert(t[j] == s[j + 1]);
        }
        if i < s.len() {
            assert(t[i - 1] == s[i]);
        }
        lemma_leading_underscores(t, i - 1);
    }
}

/// `s` without its leading underscores.
pub fn trim_leading_underscores(s: &str) -> (r: String)
    ensures
        r@ == trim_underscores(s@),
{
    let n = s.unicode_len();
    let mut i: usize = 0;
    while i < n && s.get_char(i) == '_'
        invariant
            n == s@.len(),
            0 <= i <= n,
            forall|j: int| 0 <= j < i ==> s@[j] == '_',
        decreases n - i,
    {
        i = i + 1;
    }
    proof {
        lemma_leading_underscores(s@, i as int);
    }
    String::from_str(s.substring_char(i, n))
}

/// The weight of a method whose weight is given as `kind`; see `weight_of`.
pub fn expand_weight(prefix: &str, name: &str, kind: CallWeightKind) -> (r: WeightPlan)
    ensures
        weight_view(r) == weight_of(prefix@, name@, kind),
{
    match kind {
        CallWeightKind::DevModeDefault => WeightPlan::Zero,
        CallWeightKind::Immediate => WeightPlan::Immediate,
        CallWeightKind::Inherited => WeightPlan::WeightInfoCall(String::from_str(prefix).concat(name)),
    }
}

fn field_plan(a: &CallArgModel) -> (r: CallFieldPlan)
    ensures
        field_view(r) == field_of(*a),
{
    CallFieldPlan {
        binding: a.name.clone(),
        field: trim_leading_underscores(a.name.as_str()),
        is_compact: a.is_compact,
    }
}

/// The variant generated for a method; see `variant_of`.
pub fn variant_plan(m: &CallMethodModel) -> (r: CallVariantPlan)
    ensures
        variant_view(r) == variant_of(*m),
{
    let mut fields: Vec<CallFieldPlan> = Vec::new();
    let mut i: usize = 0;
    while i < m.args.len()
        invariant
            0 <= i <= m.args@.len(),
            fields@.len() == i,
            forall|j: int| 0 <= j < i ==> field_view(#[trigger] fields@[j]) == field_of(m.args@[j]),
        decreases m.args@.len() - i,
    {
        fields.push(field_plan(&m.args[i]));
        i = i + 1;
    }
    let name = m.name.as_str();
    let constructor = String::from_str("new_call_variant_").concat(name);
    let constructor_doc = String::from_str("Create a call with the variant `").concat(name).concat("`.");
    let authorize = match m.authorize {
        Some(k) => Some(expand_weight("authorize_", name, k)),
        None => None,
    };
    let storage_layer = match m.return_type {
        CallReturnType::DispatchResult => StorageLayerTypes::UnitAndDispatchError,
        CallReturnType::DispatchResultWithPostInfo => StorageLayerTypes::PostInfoAndErrorWithPostInfo,
    };
    let r = CallVariantPlan {
        name: m.name.clone(),
        call_index: m.call_index,
        constructor,
        constructor_doc,
        fields,
        weight: expand_weight("", name, m.weight),
        authorize,
        storage_layer,
        default_feeless: !m.has_feeless_check,
    };
    proof {
        reveal_strlit("");
        assert(r.fields@.map_values(|f: CallFieldPlan| field_view(f)) =~= m.args@.map_values(
            |a: CallArgModel| field_of(a),
        ));
    }
    r
}

/// What is generated for a pallet's calls: one variant per method, in
/// order; a warning for each method without an explicit call index unless
/// the pallet is in dev mode; and whether the calls are defined.
pub fn expand_call_plan(methods: &Vec<CallMethodModel>, dev_mode: bool, has_call: bool) -> (r: CallExpansionPlan)
    ensures
        r.variants@.len() == methods@.len(),
        forall|i: int| 0 <= i < methods@.len() ==> variant_view(#[trigger] r.variants@[i]) == variant_of(methods@[i]),
        names_view(r.implicit_index_warnings@) == if dev_mode {
            Seq::<Seq<char>>::empty()
        } else {
            implicit_indices(methods@)
        },
        r.call_part_defined == has_call,
{
    let mut variants: Vec<CallVariantPlan> = Vec::new();
    let mut warnings: Vec<String> = Vec::new();
    let mut i: usize = 0;
    while i < methods.len()
        invariant
            0 <= i <= methods@.len(),
            variants@.len() == i,
            forall|j: int| 0 <= j < i ==> variant_view(#[trigger] variants@[j]) == variant_of(methods@[j]),
            names_view(warnings@) == if dev_mode {
                Seq::<Seq<char>>::empty()
            } else {
                implicit_indices(methods@.take(i as int))
            },
        decreases methods@.len() - i,
    {
        let m = &methods[i];
        variants.push(variant_plan(m));
        if !(m.explicit_call_index || dev_mode) {
            warnings.push(m.name.clone());
        }
        proof {
            assert(methods@.take(i + 1).drop_last() =~= methods@.take(i as int));
            assert(methods@.take(i + 1).last() == methods@[i as int]);
        }
        i = i + 1;
        proof {
            if dev_mode {
                assert(names_view(warnings@) =~= Seq::<Seq<char>>::empty());
            } else {
                assert(names_view(warnings@) =~= implicit_indices(methods@.take(i as int)));
            }
        }
    }
    proof {
        assert(methods@.take(methods@.len() as int) =~= methods@);
    }
    CallExpansionPlan { variants, implicit_index_warnings: warnings, call_part_defined: has_call }
}

/// The leading underscores of `s` are underscores, and what follows them
/// does not start with one.
proof fn lemma_leading_underscores_are_all(s: Seq<char>)
    ensures
        leading_underscores(s) <= s.len(),
        forall|j: int| 0 <= j < leading_underscores(s) ==> s[j] == '_',
        leading_underscores(s) == s.len() || s[leading_underscores(s) as int] != '_',
    decreases s.len(),
{
    if s.len() > 0 && s[0] == '_' {
        let t = s.drop_first();
        lemma_leading_underscores_are_all(t);
        assert forall|j: int| 0 <= j < leading_underscores(s) implies s[j] == '_' by {
            if j > 0 {
                assert(s[j] == t[j - 1]);
            }
        }
        if leading_underscores(s) < s.len() {
            assert(s[leading_underscores(s) as int] == t[leading_underscores(t) as int]);
        }
    }
}

/// A field's name is its argument's name without the underscores it starts
/// with: the argument's name is some underscores followed by the field's
/// name, which does not start with an underscore.
pub proof fn field_name_drops_leading_underscores(name: Seq<char>)
    ensures
        trim_underscores(name).len() <= name.len(),
        name == Seq::new((name.len() - trim_underscores(name).len()) as nat, |j: int| '_') + trim_underscores(name),
        trim_underscores(name).len() == 0 || trim_underscores(name)[0] != '_',
{
    lemma_leading_underscores_are_all(name);
    let k = leading_underscores(name) as int;
    let t = trim_underscores(name);
    assert(name =~= Seq::new((name.len() - t.len()) as nat, |j: int| '_') + t);
}

/// The variant generated for a method describes that method: its name and
/// index; one field per argument, in order, named after the argument
/// without its leading underscores and encoded as the argument is; the
/// default fee-less check exactly when the method has no fee-less check of
/// its own; an authorization exactly when the method has one; the storage
/// layer of its return type; and its weight by kind: zero in dev mode
/// without a weight, the given expression, or the pallet's weight
/// information function named after the method (for the authorization,
/// prefixed with `authorize_`).
pub proof fn variant_describes_its_method(m: CallMethodModel)
    ensures
        variant_of(m).name == m.name@,
        variant_of(m).call_index == m.call_index,
        variant_of(m).constructor == "new_call_variant_"@ + m.name@,
        variant_of(m).fields.len() == m.args@.len(),
        forall|i: int| 0 <= i < m.args@.len() ==> {
            let f = #[trigger] variant_of(m).fields[i];
            &&& f.binding == m.args@[i].name@
            &&& f.is_compact == m.args@[i].is_compact
            &&& f.binding == Seq::new((f.binding.len() - f.field.len()) as nat, |j: int| '_') + f.field
            &&& (f.field.len() == 0 || f.field[0] != '_')
        },
        variant_of(m).default_feeless <==> !m.has_feeless_check,
        variant_of(m).authorize is Some <==> m.authorize is Some,
        m.authorize == Some(CallWeightKind::Inherited) ==> variant_of(m).authorize == Some(
            WeightSpec::WeightInfoCall("authorize_"@ + m.name@),
        ),
        (m.return_type == CallReturnType::DispatchResult) <==> (variant_of(m).storage_layer
            == StorageLayerTypes::UnitAndDispatchError),
        m.weight == CallWeightKind::DevModeDefault ==> variant_of(m).weight == WeightSpec::Zero,
        m.weight == CallWeightKind::Immediate ==> variant_of(m).weight == WeightSpec::Immediate,
        m.weight == CallWeightKind::Inherited ==> variant_of(m).weight == WeightSpec::WeightInfoCall(m.name@),
{
    assert(Seq::<char>::empty() + m.name@ =~= m.name@);
    assert forall|i: int| 0 <= i < m.args@.len() implies {
        let f = #[trigger] variant_of(m).fields[i];
        &&& f.binding == m.args@[i].name@
        &&& f.is_compact == m.args@[i].is_compact
        &&& f.binding == Seq::new((f.binding.len() - f.field.len()) as nat, |j: int| '_') + f.field
        &&& (f.field.len() == 0 || f.field[0] != '_')
    } by {
        field_name_drops_leading_underscores(m.args@[i].name@);
    }
}

/// The methods warned of for an implicit call index are exactly the methods
/// without an explicit index, in their order: the names of the methods
/// kept by filtering out those with an explicit index.
pub proof fn implicit_index_warnings_name_implicit_methods(ms: Seq<CallMethodModel>)
    ensures
        implicit_indices(ms) == ms.filter(|m: CallMethodModel| !m.explicit_call_index).map_values(
            |m: CallMethodModel| m.name@,
        ),
    decreases ms.len(),
{
    reveal(Seq::filter);
    if ms.len() > 0 {
        implicit_index_warnings_name_implicit_methods(ms.drop_last());
        let pred = |m: CallMethodModel| !m.explicit_call_index;
        let f0 = ms.drop_last().filter(pred);
        if pred(ms.last()) {
            assert(f0.push(ms.last()).map_values(|m: CallMethodModel| m.name@) =~= f0.map_values(
                |m: CallMethodModel| m.name@,
            ) + seq![ms.last().name@]);
        } else {
            assert(f0.map_values(|m: CallMethodModel| m.name@) + Seq::<Seq<char>>::empty() =~= f0.map_values(
                |m: CallMethodModel| m.name@,
            ));
        }
    } else {
        assert(ms.filter(|m: CallMethodModel| !m.explicit_call_index).map_values(|m: CallMethodModel| m.name@)
            =~= Seq::<Seq<char>>::empty());
    }
}

} // verus!
