//! A guard on the parameters of a query: every parameter must be declared,
//! and every declared parameter must be there and pass its check.

use crate::error::{AppError, ErrorView};
use crate::permission_guard::{error_view, RequestContext};
use crate::text::str_eq;
use vstd::prelude::*;
use vstd::string::StrSliceExecFns;
use vstd::string::StringExecFns;

verus! {

/// The pairs of name and value that `url::form_urlencoded::parse` reads
/// from a query, in their order, percent-decoded.
pub uninterp spec fn query_pairs(query: Seq<char>) -> Seq<(Seq<char>, Seq<char>)>;

/// Pairs of name and value, by their views.
pub open spec fn pairs_view(pairs: Seq<(String, String)>) -> Seq<(Seq<char>, Seq<char>)> {
    pairs.map_values(|p: (String, String)| (p.0@, p.1@))
}

/// Calls `url::form_urlencoded::parse` on the bytes of the query and
/// collects the pairs it yields as owned texts. The contract gives the
/// result a name and claims nothing else of it.
#[verifier::external_body]
fn parse_query(query: &str) -> (pairs: Vec<(String, String)>)
    ensures
        pairs_view(pairs@) == query_pairs(query@),
{
    url::form_urlencoded::parse(query.as_bytes()).into_owned().collect()
}

/// The check of one declared parameter.
pub struct Rule<V> {
    /// The name of the parameter.
    pub name: String,
    /// The check, which is given the name and the value.
    pub check: V,
    /// Whether an empty value passes without being checked.
    pub lenient: bool,
}

/// The guard: its rules, at most one per name.
pub struct ParamGuard<V> {
    pub rules: Vec<Rule<V>>,
}

/// The guard in the making.
pub struct ParamGuardBuilder<V> {
    pub rules: Vec<Rule<V>>,
}

/// The value of the parameter `name`: that of its last occurrence.
pub open spec fn value_of(pairs: Seq<(Seq<char>, Seq<char>)>, name: Seq<char>) -> Option<
    Seq<char>,
>
    decreases pairs.len(),
{
    if pairs.len() == 0 {
        None
    } else if pairs.last().0 == name {
        Some(pairs.last().1)
    } else {
        value_of(pairs.drop_last(), name)
    }
}

/// Whether a rule is declared for `name`.
pub open spec fn declares<V>(rules: Seq<Rule<V>>, name: Seq<char>) -> bool {
    exists|i: int| 0 <= i < rules.len() && (#[trigger] rules[i]).name@ == name
}

/// The first parameter of the query for which no rule is declared.
pub open spec fn first_undeclared<V>(pairs: Seq<(Seq<char>, Seq<char>)>, rules: Seq<Rule<V>>)
    -> Option<Seq<char>>
    decreases pairs.len(),
{
    if pairs.len() == 0 {
        None
    } else if !declares(rules, pairs[0].0) {
        Some(pairs[0].0)
    } else {
        first_undeclared(pairs.drop_first(), rules)
    }
}

/// Whether the check of `rule` may have answered `answer` on `value`.
pub open spec fn check_answers<V: Fn(&str, &str) -> bool>(
    rule: Rule<V>,
    value: Seq<char>,
    answer: bool,
) -> bool {
    exists|n: &str, v: &str|
        n@ == rule.name@ && v@ == value && #[trigger] call_ensures(rule.check, (n, v), answer)
}

/// Whether the query meets `rule`: the parameter is there, and its value is
/// empty under a lenient rule or passes the check.
pub open spec fn rule_met<V: Fn(&str, &str) -> bool>(
    rule: Rule<V>,
    pairs: Seq<(Seq<char>, Seq<char>)>,
) -> bool {
    value_of(pairs, rule.name@) matches Some(value) && ((rule.lenient && value.len() == 0)
        || check_answers(rule, value, true))
}

/// Whether the query breaks `rule`: the parameter is missing, or its value
/// fails the check and is not excused by being empty.
pub open spec fn rule_broken<V: Fn(&str, &str) -> bool>(
    rule: Rule<V>,
    pairs: Seq<(Seq<char>, Seq<char>)>,
) -> bool {
    match value_of(pairs, rule.name@) {
        None => true,
        Some(value) => !(rule.lenient && value.len() == 0) && check_answers(rule, value, false),
    }
}

/// Whether every check may be called on every name and value.
pub open spec fn checks_are_total<V: Fn(&str, &str) -> bool>(rules: Seq<Rule<V>>) -> bool {
    forall|i: int, n: &str, v: &str|
        0 <= i < rules.len() ==> #[trigger] call_requires(rules[i].check, (n, v))
}

fn find_rule<V>(rules: &Vec<Rule<V>>, name: &str) -> (at: Option<usize>)
    ensures
        match at {
            Some(i) => i < rules@.len() && rules@[i as int].name@ == name@,
            None => !declares(rules@, name@),
        },
{
    let mut i: usize = 0;
    while i < rules.len()
        invariant
            i <= rules.len(),
            forall|k: int| 0 <= k < i ==> (#[trigger] rules@[k]).name@ != name@,
        decreases rules.len() - i,
    {
        if str_eq(rules[i].name.as_str(), name) {
            return Some(i);
        }
        i += 1;
    }
    None
}

fn find_value<'a>(pairs: &'a Vec<(String, String)>, name: &str) -> (value: Option<&'a String>)
    ensures
        match value {
            Some(v) => value_of(pairs_view(pairs@), name@) == Some(v@),
            None => value_of(pairs_view(pairs@), name@) is None,
        },
{
    let ghost all = pairs_view(pairs@);
    let mut i: usize = pairs.len();
    assert(all.take(i as int) =~= all);
    while i > 0
        invariant
            i <= pairs.len(),
            all == pairs_view(pairs@),
            value_of(all, name@) == value_of(all.take(i as int), name@),
        decreases i,
    {
        i -= 1;
        proof {
            let part = all.take(i + 1);
            assert(part.last() == (pairs@[i as int].0@, pairs@[i as int].1@));
            assert(part.drop_last() =~= all.take(i as int));
        }
        if str_eq(pairs[i].0.as_str(), name) {
            return Some(&pairs[i].1);
        }
    }
    assert(all.take(0) =~= Seq::empty());
    None
}

impl<V: Fn(&str, &str) -> bool> ParamGuard<V> {
    /// A builder without rules.
    pub fn builder() -> (builder: ParamGuardBuilder<V>)
        ensures
            builder.rules@.len() == 0,
    {
        ParamGuardBuilder::new()
    }

    /// Judges the parsed query: the outcome is that of `check`.
    pub fn check_pairs(&self, pairs: &Vec<(String, String)>, ctx: &mut RequestContext) -> (pass:
        bool)
        requires
            checks_are_total(self.rules@),
        ensures
            final(ctx).authorization == old(ctx).authorization,
            match first_undeclared(pairs_view(pairs@), self.rules@) {
                Some(name) => !pass && error_view(final(ctx).error) == Some(
                    ErrorView::Forbidden("未声明参数: "@ + name),
                ),
                None => final(ctx).error == old(ctx).error && if pass {
                    forall|i: int|
                        0 <= i < self.rules@.len() ==> rule_met(
                            #[trigger] self.rules@[i],
                            pairs_view(pairs@),
                        )
                } else {
                    exists|i: int|
                        0 <= i < self.rules@.len() && rule_broken(
                            #[trigger] self.rules@[i],
                            pairs_view(pairs@),
                        )
                },
            },
    {
        let ghost all = pairs_view(pairs@);
        let mut i: usize = 0;
        assert(all.skip(0) =~= all);
        while i < pairs.len()
            invariant
                i <= pairs.len(),
                all == pairs_view(pairs@),
                *ctx == *old(ctx),
                first_undeclared(all, self.rules@) == first_undeclared(
                    all.skip(i as int),
                    self.rules@,
                ),
            decreases pairs.len() - i,
        {
            proof {
                let rest = all.skip(i as int);
                assert(rest[0] == (pairs@[i as int].0@, pairs@[i as int].1@));
                assert(rest.drop_first() =~= all.skip(i + 1));
            }
            if find_rule(&self.rules, pairs[i].0.as_str()).is_none() {
                let message = "未声明参数: ".to_owned().concat(pairs[i].0.as_str());
                ctx.error = Some(AppError::Forbidden(message));
                return false;
            }
            i += 1;
        }
        assert(all.skip(i as int) =~= Seq::empty());
        let mut k: usize = 0;
        while k < self.rules.len()
            invariant
                k <= self.rules.len(),
                all == pairs_view(pairs@),
                *ctx == *old(ctx),
                checks_are_total(self.rules@),
                first_undeclared(all, self.rules@) is None,
                forall|j: int| 0 <= j < k ==> rule_met(#[trigger] self.rules@[j], all),
            decreases self.rules.len() - k,
        {
            let rule = &self.rules[k];
            match find_value(pairs, rule.name.as_str()) {
                None => {
                    assert(rule_broken(self.rules@[k as int], all));
                    return false;
                },
                Some(value) => {
                    if !(rule.lenient && value.as_str().unicode_len() == 0) {
                        let name = rule.name.as_str();
                        let text = value.as_str();
                        let answer = (rule.check)(name, text);
                        assert(check_answers(*rule, value@, answer));
                        if !answer {
                            assert(rule_broken(self.rules@[k as int], all));
                            return false;
                        }
                    }
                    assert(rule_met(self.rules@[k as int], all));
                },
            }
            k += 1;
        }
        true
    }

    /// Whether the query passes the guard. An undeclared parameter is left
    /// in the context as a forbidden request that names it; a missing
    /// parameter and a failed check turn the request away without a word.
    pub fn check(&self, query: &str, ctx: &mut RequestContext) -> (pass: bool)
        requires
            checks_are_total(self.rules@),
        ensures
            final(ctx).authorization == old(ctx).authorization,
            match first_undeclared(query_pairs(query@), self.rules@) {
                Some(name) => !pass && error_view(final(ctx).error) == Some(
                    ErrorView::Forbidden("未声明参数: "@ + name),
                ),
                None => final(ctx).error == old(ctx).error && if pass {
                    forall|i: int|
                        0 <= i < self.rules@.len() ==> rule_met(
                            #[trigger] self.rules@[i],
                            query_pairs(query@),
                        )
                } else {
                    exists|i: int|
                        0 <= i < self.rules@.len() && rule_broken(
                            #[trigger] self.rules@[i],
                            query_pairs(query@),
                        )
                },
            },
    {
        let pairs = parse_query(query);
        self.check_pairs(&pairs, ctx)
    }
}

/// Whether `rules` are `before` with the rule `added` in place of any rule
/// of its name: `added` stands last, no other rule bears its name, and
/// the rules of other names are those of `before`.
pub open spec fn replaced<V>(before: Seq<Rule<V>>, rules: Seq<Rule<V>>, added: Rule<V>) -> bool {
    &&& rules.len() > 0
    &&& rules.last() == added
    &&& forall|i: int| 0 <= i < rules.len() - 1 ==> (#[trigger] rules[i]).name@ != added.name@
    &&& forall|i: int| 0 <= i < rules.len() - 1 ==> before.contains(#[trigger] rules[i])
    &&& forall|j: int|
        0 <= j < before.len() && (#[trigger] before[j]).name@ != added.name@ ==> rules.contains(
            before[j],
        )
}

/// Whether no two rules bear the same name.
pub open spec fn one_rule_per_name<V>(rules: Seq<Rule<V>>) -> bool {
    forall|i: int, j: int|
        0 <= i < j < rules.len() ==> (#[trigger] rules[i]).name@ != (#[trigger] rules[j]).name@
}

fn put_rule<V>(rules: Vec<Rule<V>>, added: Rule<V>) -> (out: Vec<Rule<V>>)
    ensures
        replaced(rules@, out@, added),
        one_rule_per_name(rules@) ==> one_rule_per_name(out@),
{
    let ghost before = rules@;
    let mut rules = rules;
    let mut i: usize = 0;
    while i < rules.len()
        invariant
            i <= rules.len(),
            forall|k: int| 0 <= k < i ==> (#[trigger] rules@[k]).name@ != added.name@,
            one_rule_per_name(before) ==> one_rule_per_name(rules@),
            forall|k: int| 0 <= k < rules@.len() ==> before.contains(#[trigger] rules@[k]),
            forall|j: int|
                0 <= j < before.len() && (#[trigger] before[j]).name@ != added.name@
                    ==> rules@.contains(before[j]),
        decreases rules.len() - i,
    {
        if str_eq(rules[i].name.as_str(), added.name.as_str()) {
            let ghost old_rules = rules@;
            let _ = rules.remove(i);
            proof {
                if one_rule_per_name(before) {
                    assert forall|x: int, y: int| 0 <= x < y < rules@.len() implies (
                    #[trigger] rules@[x]).name@ != (#[trigger] rules@[y]).name@ by {
                        let ox = if x < i { x } else { x + 1 };
                        let oy = if y < i { y } else { y + 1 };
                        assert(rules@[x] == old_rules[ox]);
                        assert(rules@[y] == old_rules[oy]);
                    }
                }
                assert forall|k: int| 0 <= k < rules@.len() implies before.contains(
                    #[trigger] rules@[k],
                ) by {
                    if k < i {
                        assert(rules@[k] == old_rules[k]);
                    } else {
                        assert(rules@[k] == old_rules[k + 1]);
                    }
                }
                assert forall|j: int|
                    0 <= j < before.len() && (#[trigger] before[j]).name@
                        != added.name@ implies rules@.contains(before[j]) by {
                    let at = choose|at: int| 0 <= at < old_rules.len() && old_rules[at] == before[j];
                    if at < i {
                        assert(rules@[at] == before[j]);
                    } else {
                        assert(at != i);
                        assert(rules@[at - 1] == before[j]);
                    }
                }
            }
        } else {
            i += 1;
        }
    }
    let ghost kept = rules@;
    rules.push(added);
    proof {
        if one_rule_per_name(before) {
            assert forall|x: int, y: int| 0 <= x < y < rules@.len() implies (
            #[trigger] rules@[x]).name@ != (#[trigger] rules@[y]).name@ by {
                assert(rules@[x] == kept[x]);
                if y < kept.len() {
                    assert(rules@[y] == kept[y]);
                }
            }
        }
        assert forall|k: int| 0 <= k < rules@.len() - 1 implies before.contains(
            #[trigger] rules@[k],
        ) by {
            assert(rules@[k] == kept[k]);
        }
        assert forall|j: int|
            0 <= j < before.len() && (#[trigger] before[j]).name@ != added.name@ implies rules@.contains(
            before[j],
        ) by {
            let at = choose|at: int| 0 <= at < kept.len() && kept[at] == before[j];
            assert(rules@[at] == before[j]);
        }
    }
    rules
}

impl<V: Fn(&str, &str) -> bool> ParamGuardBuilder<V> {
    /// A builder without rules.
    pub fn new() -> (builder: ParamGuardBuilder<V>)
        ensures
            builder.rules@.len() == 0,
    {
        ParamGuardBuilder { rules: Vec::new() }
    }

    /// Declares the parameter `param` with its check, in place of any rule
    /// of that name.
    pub fn validate(self, param: &str, validator: V) -> (builder: ParamGuardBuilder<V>)
        ensures
            builder.rules@.len() > 0,
            builder.rules@.last().name@ == param@,
            builder.rules@.last().check == validator,
            !builder.rules@.last().lenient,
            replaced(self.rules@, builder.rules@, builder.rules@.last()),
            one_rule_per_name(self.rules@) ==> one_rule_per_name(builder.rules@),
    {
        let added = Rule { name: param.to_owned(), check: validator, lenient: false };
        ParamGuardBuilder { rules: put_rule(self.rules, added) }
    }

    /// Declares the parameter `param` with its check, in place of any rule
    /// of that name; an empty value passes unchecked. The default is not
    /// put into the request.
    pub fn validate_or_default(self, param: &str, validator: V, default: String) -> (builder:
        ParamGuardBuilder<V>)
        ensures
            builder.rules@.len() > 0,
            builder.rules@.last().name@ == param@,
            builder.rules@.last().check == validator,
            builder.rules@.last().lenient,
            replaced(self.rules@, builder.rules@, builder.rules@.last()),
            one_rule_per_name(self.rules@) ==> one_rule_per_name(builder.rules@),
    {
        let added = Rule { name: param.to_owned(), check: validator, lenient: true };
        ParamGuardBuilder { rules: put_rule(self.rules, added) }
    }

    /// The guard with the rules declared so far.
    pub fn build(self) -> (guard: ParamGuard<V>)
        ensures
            guard.rules == self.rules,
    {
        ParamGuard { rules: self.rules }
    }
}

} // verus!
