//! The parameter binder: turns the caller-supplied argument (none, a bare
//! scalar, an ordered list, or a keyed object) into the engine's parameter
//! representation. Classification is structural: a list binds
//! positionally, a keyed object binds by the statement's declared
//! parameter names, and anything else is a single positional value.
use vstd::prelude::*;
use vstd::string::StrSliceExecFns;
use crate::errors::BindError;
use crate::text::str_eq;
use crate::value::{
    caller_pair_seq_view, caller_seq_view, encode_spec, encoded_view, map_value_ref, CallerValue,
    CallerValueV, Value, ValueV,
};

verus! {

/// The engine's parameter representation. Exactly one variant is produced
/// per bind call.
#[derive(Debug, PartialEq)]
pub enum Params {
    /// No parameters at all.
    Empty,
    /// Values bound by position, in order.
    Positional(Vec<Value>),
    /// Values bound by declared parameter name (sigil included), in
    /// declared order.
    Named(Vec<(String, Value)>),
}

/// The mathematical model of a parameter set.
#[verifier::ext_equal]
pub enum ParamsV {
    Empty,
    Positional(Seq<ValueV>),
    Named(Seq<(Seq<char>, ValueV)>),
}

/// The models of a sequence of engine values, in order.
pub open spec fn values_view(vs: Seq<Value>) -> Seq<ValueV> {
    Seq::new(vs.len(), |i: int| vs[i]@)
}

/// The models of a sequence of named engine values, in order.
pub open spec fn named_values_view(vs: Seq<(String, Value)>) -> Seq<(Seq<char>, ValueV)> {
    Seq::new(vs.len(), |i: int| (vs[i].0@, vs[i].1@))
}

impl View for Params {
    type V = ParamsV;

    open spec fn view(&self) -> ParamsV {
        match self {
            Params::Empty => ParamsV::Empty,
            Params::Positional(vs) => ParamsV::Positional(values_view(vs@)),
            Params::Named(vs) => ParamsV::Named(named_values_view(vs@)),
        }
    }
}

/// The models of a sequence of strings, in order.
pub open spec fn strings_view(names: Seq<String>) -> Seq<Seq<char>> {
    Seq::new(names.len(), |i: int| names[i]@)
}

/// What binding an ordered list yields: each element encoded in order, or
/// the first element's binding error.
pub open spec fn bind_positional_spec(items: Seq<CallerValueV>) -> Result<Seq<ValueV>, BindError>
    decreases items.len(),
{
    if items.len() == 0 {
        Ok(Seq::empty())
    } else {
        match encode_spec(items[0]) {
            Err(e) => Err(e),
            Ok(x) => match bind_positional_spec(items.skip(1)) {
                Err(e) => Err(e),
                Ok(tail) => Ok(seq![x] + tail),
            },
        }
    }
}

/// The value under the first matching key, searched in order.
pub open spec fn lookup_spec(obj: Seq<(Seq<char>, CallerValueV)>, key: Seq<char>) -> Option<
    CallerValueV,
>
    decreases obj.len(),
{
    if obj.len() == 0 {
        Option::None
    } else if obj[0].0 == key {
        Option::Some(obj[0].1)
    } else {
        lookup_spec(obj.skip(1), key)
    }
}

/// What binding a keyed object yields: for each declared parameter name in
/// order, the name is looked up in the object with its leading sigil
/// stripped; present keys are encoded and appended under the full declared
/// name, absent ones are silently omitted, and keys of the object that
/// match no declared name are ignored. The first binding error wins.
pub open spec fn bind_named_spec(
    names: Seq<Seq<char>>,
    obj: Seq<(Seq<char>, CallerValueV)>,
) -> Result<Seq<(Seq<char>, ValueV)>, BindError>
    decreases names.len(),
{
    if names.len() == 0 {
        Ok(Seq::empty())
    } else {
        let name = names[0];
        match lookup_spec(obj, name.skip(1)) {
            Option::None => bind_named_spec(names.skip(1), obj),
            Option::Some(cv) => match encode_spec(cv) {
                Err(e) => Err(e),
                Ok(x) => match bind_named_spec(names.skip(1), obj) {
                    Err(e) => Err(e),
                    Ok(tail) => Ok(seq![(name, x)] + tail),
                },
            },
        }
    }
}

/// What one bind call yields for a given argument shape.
pub open spec fn map_params_spec(names: Seq<Seq<char>>, arg: Option<CallerValueV>) -> Result<
    ParamsV,
    BindError,
> {
    match arg {
        Option::None => Ok(ParamsV::Empty),
        Option::Some(CallerValueV::List(items)) => match bind_positional_spec(items) {
            Err(e) => Err(e),
            Ok(vs) => Ok(ParamsV::Positional(vs)),
        },
        Option::Some(CallerValueV::Obj(pairs)) => match bind_named_spec(names, pairs) {
            Err(e) => Err(e),
            Ok(vs) => Ok(ParamsV::Named(vs)),
        },
        Option::Some(v) => match encode_spec(v) {
            Err(e) => Err(e),
            Ok(x) => Ok(ParamsV::Positional(seq![x])),
        },
    }
}

/// The model of a bind result.
pub open spec fn params_view(r: Result<Params, BindError>) -> Result<ParamsV, BindError> {
    match r {
        Ok(p) => Ok(p@),
        Err(e) => Err(e),
    }
}

/// Binds a bare scalar as a single positional value.
pub fn map_params_single(param: CallerValue) -> (r: Result<Params, BindError>)
    ensures
        params_view(r) == (match encode_spec(param@) {
            Err(e) => Err::<ParamsV, BindError>(e),
            Ok(x) => Ok(ParamsV::Positional(seq![x])),
        }),
{
    match map_value_ref(&param) {
        Err(e) => Err(e),
        Ok(x) => {
            let mut vs: Vec<Value> = Vec::new();
            vs.push(x);
            let r = Params::Positional(vs);
            proof {
                assert(values_view(vs@) =~= seq![encode_spec(param@)->Ok_0]);
            }
            Ok(r)
        },
    }
}

/// Binds an ordered list positionally, encoding each element in order;
/// the first element that cannot be encoded decides the error.
pub fn map_params_array(items: &Vec<CallerValue>) -> (r: Result<Params, BindError>)
    ensures
        params_view(r) == (match bind_positional_spec(caller_seq_view(items@)) {
            Err(e) => Err::<ParamsV, BindError>(e),
            Ok(vs) => Ok(ParamsV::Positional(vs)),
        }),
{
    proof {
        assert(caller_seq_view(items@).skip(0) =~= caller_seq_view(items@));
    }
    match bind_positional_from(items, 0) {
        Err(e) => Err(e),
        Ok(vs) => Ok(Params::Positional(vs)),
    }
}

/// Encodes the elements of `items` from index `i` on, in order.
fn bind_positional_from(items: &Vec<CallerValue>, i: usize) -> (r: Result<Vec<Value>, BindError>)
    requires
        i <= items@.len(),
    ensures
        (match r {
            Ok(vs) => bind_positional_spec(caller_seq_view(items@).skip(i as int)) == Ok::<
                _,
                BindError,
            >(values_view(vs@)),
            Err(e) => bind_positional_spec(caller_seq_view(items@).skip(i as int)) == Err::<
                Seq<ValueV>,
                _,
            >(e),
        }),
    decreases items@.len() - i,
{
    let ghost whole = caller_seq_view(items@);
    if i == items.len() {
        let vs: Vec<Value> = Vec::new();
        proof {
            assert(values_view(vs@) =~= Seq::<ValueV>::empty());
        }
        Ok(vs)
    } else {
        match map_value_ref(&items[i]) {
            Err(e) => Err(e),
            Ok(x) => match bind_positional_from(items, i + 1) {
                Err(e) => {
                    proof {
                        assert(whole.skip(i as int).skip(1) =~= whole.skip(i + 1));
                    }
                    Err(e)
                },
                Ok(mut tail) => {
                    proof {
                        assert(whole.skip(i as int).skip(1) =~= whole.skip(i + 1));
                    }
                    let ghost prev = tail@;
                    tail.insert(0, x);
                    proof {
                        assert(values_view(tail@) =~= seq![x@] + values_view(prev));
                    }
                    Ok(tail)
                },
            },
        }
    }
}

/// Finds the first pair of `obj` whose key equals `key`, searching from
/// index `i` on.
fn lookup_from<'a>(obj: &'a Vec<(String, CallerValue)>, i: usize, key: &str) -> (r: Option<
    &'a CallerValue,
>)
    requires
        i <= obj@.len(),
    ensures
        (match r {
            Option::Some(cv) => lookup_spec(caller_pair_seq_view(obj@).skip(i as int), key@)
                == Option::Some(cv@),
            Option::None => lookup_spec(caller_pair_seq_view(obj@).skip(i as int), key@)
                is None,
        }),
    decreases obj@.len() - i,
{
    let ghost whole = caller_pair_seq_view(obj@);
    if i == obj.len() {
        Option::None
    } else if str_eq(obj[i].0.as_str(), key) {
        Option::Some(&obj[i].1)
    } else {
        proof {
            assert(whole.skip(i as int).skip(1) =~= whole.skip(i + 1));
        }
        lookup_from(obj, i + 1, key)
    }
}

/// Encodes the declared parameters from index `i` on against the keyed
/// object, omitting declared names whose stripped key the object lacks.
fn bind_named_from(
    names: &Vec<String>,
    i: usize,
    obj: &Vec<(String, CallerValue)>,
) -> (r: Result<Vec<(String, Value)>, BindError>)
    requires
        i <= names@.len(),
        forall|j: int| 0 <= j < names@.len() ==> (#[trigger] names@[j])@.len() >= 1,
    ensures
        (match r {
            Ok(vs) => bind_named_spec(
                strings_view(names@).skip(i as int),
                caller_pair_seq_view(obj@),
            ) == Ok::<_, BindError>(named_values_view(vs@)),
            Err(e) => bind_named_spec(
                strings_view(names@).skip(i as int),
                caller_pair_seq_view(obj@),
            ) == Err::<Seq<(Seq<char>, ValueV)>, _>(e),
        }),
    decreases names@.len() - i,
{
    let ghost whole = strings_view(names@);
    if i == names.len() {
        let vs: Vec<(String, Value)> = Vec::new();
        proof {
            assert(named_values_view(vs@) =~= Seq::<(Seq<char>, ValueV)>::empty());
        }
        Ok(vs)
    } else {
        let name = &names[i];
        let len = name.as_str().unicode_len();
        let key = name.as_str().substring_char(1, len);
        proof {
            assert(whole.skip(i as int).skip(1) =~= whole.skip(i + 1));
            assert(key@ =~= whole.skip(i as int)[0].skip(1));
        }
        match lookup_from(obj, 0, key) {
            Option::None => {
                proof {
                    assert(caller_pair_seq_view(obj@).skip(0) =~= caller_pair_seq_view(obj@));
                }
                bind_named_from(names, i + 1, obj)
            },
            Option::Some(cv) => {
                proof {
                    assert(caller_pair_seq_view(obj@).skip(0) =~= caller_pair_seq_view(obj@));
                }
                match map_value_ref(cv) {
                    Err(e) => Err(e),
                    Ok(x) => match bind_named_from(names, i + 1, obj) {
                        Err(e) => Err(e),
                        Ok(mut tail) => {
                            let ghost prev = tail@;
                            tail.insert(0, (name.clone(), x));
                            proof {
                                assert(named_values_view(tail@) =~= seq![(name@, x@)]
                                    + named_values_view(prev));
                            }
                            Ok(tail)
                        },
                    },
                }
            },
        }
    }
}

/// Binds a keyed object against the statement's declared parameter names:
/// present keys bind under the full declared name, absent ones are
/// omitted, undeclared keys of the object are ignored.
pub fn map_params_object(
    param_names: &Vec<String>,
    obj: &Vec<(String, CallerValue)>,
) -> (r: Result<Params, BindError>)
    requires
        forall|j: int| 0 <= j < param_names@.len() ==> (#[trigger] param_names@[j])@.len() >= 1,
    ensures
        params_view(r) == (match bind_named_spec(
            strings_view(param_names@),
            caller_pair_seq_view(obj@),
        ) {
            Err(e) => Err::<ParamsV, BindError>(e),
            Ok(vs) => Ok(ParamsV::Named(vs)),
        }),
{
    proof {
        assert(strings_view(param_names@).skip(0) =~= strings_view(param_names@));
    }
    match bind_named_from(param_names, 0, obj) {
        Err(e) => Err(e),
        Ok(vs) => Ok(Params::Named(vs)),
    }
}

/// The model of an optional caller value.
pub open spec fn opt_caller_view(arg: Option<CallerValue>) -> Option<CallerValueV> {
    match arg {
        Option::None => Option::None,
        Option::Some(v) => Option::Some(v@),
    }
}

/// Binds one caller-supplied argument: no argument binds nothing, an
/// ordered list binds positionally, a keyed object binds by declared
/// name, and any other shape binds as a single positional value.
pub fn map_params(param_names: &Vec<String>, arg: Option<CallerValue>) -> (r: Result<
    Params,
    BindError,
>)
    requires
        arg matches Option::Some(CallerValue::Obj(_)) ==> forall|j: int|
            0 <= j < param_names@.len() ==> (#[trigger] param_names@[j])@.len() >= 1,
    ensures
        params_view(r) == map_params_spec(strings_view(param_names@), opt_caller_view(arg)),
{
    match arg {
        Option::None => Ok(Params::Empty),
        Option::Some(CallerValue::List(items)) => map_params_array(&items),
        Option::Some(CallerValue::Obj(pairs)) => map_params_object(param_names, &pairs),
        Option::Some(v) => map_params_single(v),
    }
}

/// A member of the tail of a sequence is a member of the sequence.
proof fn lemma_skip_contains<A>(s: Seq<A>, x: A)
    requires
        s.len() >= 1,
        s.skip(1).contains(x),
    ensures
        s.contains(x),
{
    let i = choose|i: int| 0 <= i < s.skip(1).len() && s.skip(1)[i] == x;
    assert(s[i + 1] == x);
}

/// Keys of a named bind come only from the declared parameter list, and
/// only from declared names whose stripped key the object supplies: a key
/// present in the object but matching no declared name binds nothing.
pub proof fn lemma_named_bind_scope(names: Seq<Seq<char>>, obj: Seq<(Seq<char>, CallerValueV)>)
    requires
        bind_named_spec(names, obj) is Ok,
    ensures
        ({
            let bound = bind_named_spec(names, obj)->Ok_0;
            forall|j: int|
                0 <= j < bound.len() ==> names.contains(#[trigger] bound[j].0) && lookup_spec(
                    obj,
                    bound[j].0.skip(1),
                ) is Some
        }),
    decreases names.len(),
{
    if names.len() == 0 {
    } else {
        let name = names[0];
        let bound = bind_named_spec(names, obj)->Ok_0;
        let rest = bind_named_spec(names.skip(1), obj)->Ok_0;
        lemma_named_bind_scope(names.skip(1), obj);
        match lookup_spec(obj, name.skip(1)) {
            Option::None => {
                assert forall|j: int| 0 <= j < bound.len() implies names.contains(
                    #[trigger] bound[j].0,
                ) && lookup_spec(obj, bound[j].0.skip(1)) is Some by {
                    lemma_skip_contains(names, bound[j].0);
                }
            },
            Option::Some(_) => {
                assert(names.contains(name)) by {
                    assert(names[0] == name);
                }
                assert forall|j: int| 0 <= j < bound.len() implies names.contains(
                    #[trigger] bound[j].0,
                ) && lookup_spec(obj, bound[j].0.skip(1)) is Some by {
                    if j > 0 {
                        assert(bound[j] == rest[j - 1]);
                        lemma_skip_contains(names, bound[j].0);
                    }
                }
            },
        }
    }
}

/// A declared parameter whose stripped key is absent from the object is
/// silently omitted: no pair of the named bind carries that name.
pub proof fn lemma_named_bind_omits_absent(
    names: Seq<Seq<char>>,
    obj: Seq<(Seq<char>, CallerValueV)>,
    name: Seq<char>,
)
    requires
        bind_named_spec(names, obj) is Ok,
        lookup_spec(obj, name.skip(1)) is None,
    ensures
        ({
            let bound = bind_named_spec(names, obj)->Ok_0;
            forall|j: int| 0 <= j < bound.len() ==> (#[trigger] bound[j].0) != name
        }),
    decreases names.len(),
{
    if names.len() == 0 {
    } else {
        let head = names[0];
        let bound = bind_named_spec(names, obj)->Ok_0;
        let rest = bind_named_spec(names.skip(1), obj)->Ok_0;
        lemma_named_bind_omits_absent(names.skip(1), obj, name);
        match lookup_spec(obj, head.skip(1)) {
            Option::None => {
            },
            Option::Some(_) => {
                assert(head != name);
                assert forall|j: int| 0 <= j < bound.len() implies (#[trigger] bound[j].0)
                    != name by {
                    if j > 0 {
                        assert(bound[j] == rest[j - 1]);
                    }
                }
            },
        }
    }
}

} // verus!
