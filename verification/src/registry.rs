//! The function registry: name-to-descriptor lookup for scalar and
//! aggregate functions, built once and passed explicitly into type
//! resolution. A descriptor carries the function's declared return-type
//! rule over its argument types.

use vstd::prelude::*;

use crate::error::ErrorCode;
use crate::text::str_eq;
use crate::types::{equal_coercion, spec_coerce, DataType};

verus! {

/// How a function's return type follows from its argument types.
#[derive(Clone, Copy, Debug, PartialEq, Eq, Structural)]
pub enum ReturnTypeRule {
    /// Always the given type, whatever the arguments.
    Fixed(DataType),
    /// The first argument's type; the given type when there is no argument.
    FirstArgOr(DataType),
    /// The coerced common type of all arguments.
    Coerced,
}

/// The common type of a whole argument list under pairwise coercion,
/// folded left to right.
pub open spec fn coerce_all(ts: Seq<DataType>) -> Option<DataType>
    decreases ts.len(),
{
    if ts.len() == 0 {
        Option::None
    } else if ts.len() == 1 {
        Option::Some(ts[0])
    } else {
        match coerce_all(ts.drop_last()) {
            Option::None => Option::None,
            Option::Some(acc) => spec_coerce(acc, ts.last()),
        }
    }
}

/// The return type a rule declares over given argument types.
pub open spec fn apply_rule(rule: ReturnTypeRule, ts: Seq<DataType>) -> Result<
    DataType,
    ErrorCode,
> {
    match rule {
        ReturnTypeRule::Fixed(t) => Ok(t),
        ReturnTypeRule::FirstArgOr(t) => if ts.len() == 0 {
            Ok(t)
        } else {
            Ok(ts[0])
        },
        ReturnTypeRule::Coerced => if ts.len() == 0 {
            Err(ErrorCode::IllegalExpression)
        } else {
            match coerce_all(ts) {
                Option::None => Err(ErrorCode::TypeMismatch),
                Option::Some(t) => Ok(t),
            }
        },
    }
}

impl ReturnTypeRule {
    /// Resolve the return type over the given argument types.
    pub fn resolve(&self, ts: &Vec<DataType>) -> (r: Result<DataType, ErrorCode>)
        ensures
            r == apply_rule(*self, ts@),
    {
        let rule = *self;
        match rule {
            ReturnTypeRule::Fixed(t) => Ok(t),
            ReturnTypeRule::FirstArgOr(t) => {
                if ts.len() == 0 {
                    Ok(t)
                } else {
                    Ok(ts[0])
                }
            },
            ReturnTypeRule::Coerced => {
                if ts.len() == 0 {
                    return Err(ErrorCode::IllegalExpression);
                }
                let mut acc = ts[0];
                let mut i: usize = 1;
                while i < ts.len()
                    invariant
                        1 <= i <= ts@.len(),
                        ts@.len() >= 1,
                        rule == ReturnTypeRule::Coerced,
                        *self == rule,
                        coerce_all(ts@.take(i as int)) == Option::Some(acc),
                    decreases ts@.len() - i,
                {
                    proof {
                        assert(ts@.take(i + 1).drop_last() =~= ts@.take(i as int));
                        assert(ts@.take(i + 1).last() == ts@[i as int]);
                    }
                    match equal_coercion(&acc, &ts[i]) {
                        Ok(t) => {
                            acc = t;
                        },
                        Err(_) => {
                            proof {
                                assert(ts@.take(i + 1).len() == i + 1 >= 2);
                                assert(coerce_all(ts@.take(i + 1)) == spec_coerce(
                                    acc,
                                    ts@[i as int],
                                ));
                                lemma_coerce_all_none(ts@, i + 1);
                            }
                            return Err(ErrorCode::TypeMismatch);
                        },
                    }
                    i = i + 1;
                }
                proof {
                    assert(ts@.take(i as int) =~= ts@);
                }
                Ok(acc)
            },
        }
    }
}

/// Once a prefix of the argument list fails to coerce, the whole list does.
proof fn lemma_coerce_all_none(ts: Seq<DataType>, j: int)
    requires
        0 < j <= ts.len(),
        coerce_all(ts.take(j)) is None,
    ensures
        coerce_all(ts) is None,
    decreases ts.len() - j,
{
    if j == ts.len() {
        assert(ts.take(j) =~= ts);
    } else {
        assert(ts.take(j + 1).drop_last() =~= ts.take(j));
        lemma_coerce_all_none(ts, j + 1);
    }
}

/// A registered function: its name and its return-type rule.
#[derive(Debug, PartialEq)]
pub struct FunctionDesc {
    pub name: String,
    pub rule: ReturnTypeRule,
}

impl Clone for FunctionDesc {
    /// A clone is the same descriptor.
    fn clone(&self) -> (r: FunctionDesc)
        ensures
            r == *self,
    {
        FunctionDesc { name: self.name.clone(), rule: self.rule }
    }
}

/// Index of the first descriptor of the given name, or -1.
pub open spec fn desc_index(fs: Seq<FunctionDesc>, name: Seq<char>) -> int
    decreases fs.len(),
{
    if fs.len() == 0 {
        -1
    } else if fs[0].name@ == name {
        0
    } else {
        let rest = desc_index(fs.drop_first(), name);
        if rest < 0 {
            -1
        } else {
            rest + 1
        }
    }
}

/// Whether some descriptor bears the name.
pub open spec fn has_function(fs: Seq<FunctionDesc>, name: Seq<char>) -> bool {
    exists|i: int| 0 <= i < fs.len() && #[trigger] fs[i].name@ == name
}

/// `desc_index` finds the first descriptor of the name, and only fails when
/// none bears it.
pub proof fn lemma_desc_index(fs: Seq<FunctionDesc>, name: Seq<char>)
    ensures
        has_function(fs, name) <==> 0 <= desc_index(fs, name) < fs.len(),
        !has_function(fs, name) <==> desc_index(fs, name) == -1,
        0 <= desc_index(fs, name) ==> fs[desc_index(fs, name)].name@ == name,
    decreases fs.len(),
{
    if fs.len() > 0 && fs[0].name@ != name {
        lemma_desc_index(fs.drop_first(), name);
        let rest = fs.drop_first();
        assert(forall|i: int| 1 <= i < fs.len() ==> #[trigger] fs[i].name@ == rest[i - 1].name@);
        if has_function(fs, name) {
            let w = choose|i: int| 0 <= i < fs.len() && #[trigger] fs[i].name@ == name;
            assert(rest[w - 1].name@ == name);
        }
        if has_function(rest, name) {
            let w = choose|i: int| 0 <= i < rest.len() && #[trigger] rest[i].name@ == name;
            assert(fs[w + 1].name@ == name);
        }
    }
}

/// The first match determines `desc_index`.
proof fn lemma_desc_index_first(fs: Seq<FunctionDesc>, name: Seq<char>, i: int)
    requires
        0 <= i < fs.len(),
        fs[i].name@ == name,
        forall|j: int| 0 <= j < i ==> (#[trigger] fs[j].name@) != name,
    ensures
        desc_index(fs, name) == i,
    decreases i,
{
    if i > 0 {
        let rest = fs.drop_first();
        assert(forall|k: int| 0 <= k < rest.len() ==> #[trigger] rest[k].name@ == fs[k + 1].name@);
        lemma_desc_index_first(rest, name, i - 1);
    }
}

fn lookup<'a>(fs: &'a Vec<FunctionDesc>, name: &str) -> (r: Result<&'a FunctionDesc, ErrorCode>)
    ensures
        (r is Ok <==> has_function(fs@, name@)),
        (r matches Ok(d) ==> *d == fs@[desc_index(fs@, name@)]),
        (r matches Err(e) ==> e == ErrorCode::UnknownFunction),
{
    proof {
        lemma_desc_index(fs@, name@);
    }
    let mut i: usize = 0;
    while i < fs.len()
        invariant
            0 <= i <= fs@.len(),
            forall|j: int| 0 <= j < i ==> (#[trigger] fs@[j].name@) != name@,
        decreases fs@.len() - i,
    {
        if str_eq(fs[i].name.as_str(), name) {
            proof {
                lemma_desc_index_first(fs@, name@, i as int);
            }
            return Ok(&fs[i]);
        }
        i = i + 1;
    }
    Err(ErrorCode::UnknownFunction)
}

/// The scalar function registry.
#[derive(Debug, PartialEq)]
pub struct FunctionFactory {
    pub functions: Vec<FunctionDesc>,
}

impl FunctionFactory {
    /// An empty registry.
    pub fn new() -> (r: FunctionFactory)
        ensures
            r.functions@.len() == 0,
    {
        FunctionFactory { functions: Vec::new() }
    }

    /// Register a function under a name.
    pub fn register(&mut self, name: &str, rule: ReturnTypeRule)
        ensures
            final(self).functions@.len() == old(self).functions@.len() + 1,
            final(self).functions@.last().name@ == name@,
            final(self).functions@.last().rule == rule,
            final(self).functions@.drop_last() == old(self).functions@,
    {
        self.functions.push(FunctionDesc { name: String::from_str(name), rule });
        proof {
            assert(final(self).functions@.drop_last() =~= old(self).functions@);
        }
    }

    /// The first descriptor of the name, or `UnknownFunction`.
    pub fn get(&self, name: &str) -> (r: Result<&FunctionDesc, ErrorCode>)
        ensures
            (r is Ok <==> has_function(self.functions@, name@)),
            (r matches Ok(d) ==> *d == self.functions@[desc_index(self.functions@, name@)]),
            (r matches Err(e) ==> e == ErrorCode::UnknownFunction),
    {
        lookup(&self.functions, name)
    }
}

/// The aggregate function registry. The accumulator implementation the
/// crate provides is the count accumulator; every registered name resolves
/// to it, under its own return-type rule.
#[derive(Debug, PartialEq)]
pub struct AggregateFunctionFactory {
    pub functions: Vec<FunctionDesc>,
}

impl AggregateFunctionFactory {
    /// An empty registry.
    pub fn new() -> (r: AggregateFunctionFactory)
        ensures
            r.functions@.len() == 0,
    {
        AggregateFunctionFactory { functions: Vec::new() }
    }

    /// Register an aggregate under a name.
    pub fn register(&mut self, name: &str, rule: ReturnTypeRule)
        ensures
            final(self).functions@.len() == old(self).functions@.len() + 1,
            final(self).functions@.last().name@ == name@,
            final(self).functions@.last().rule == rule,
            final(self).functions@.drop_last() == old(self).functions@,
    {
        self.functions.push(FunctionDesc { name: String::from_str(name), rule });
        proof {
            assert(final(self).functions@.drop_last() =~= old(self).functions@);
        }
    }

    /// The first descriptor of the name, or `UnknownFunction`.
    pub fn get(&self, name: &str) -> (r: Result<&FunctionDesc, ErrorCode>)
        ensures
            (r is Ok <==> has_function(self.functions@, name@)),
            (r matches Ok(d) ==> *d == self.functions@[desc_index(self.functions@, name@)]),
            (r matches Err(e) ==> e == ErrorCode::UnknownFunction),
    {
        lookup(&self.functions, name)
    }
}

} // verus!
