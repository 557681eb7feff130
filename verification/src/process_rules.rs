//! Which rule is in force, given the programs that run.
use crate::config::AppRule;
use crate::devices::PollingRate;
use crate::text::{
    lower, lowered, same_text, strip_end, texts, trim, trimmed, without_back, without_end,
    without_front, Margin,
};
use vstd::prelude::*;

verus! {

/// The rule that is in force.
#[derive(Clone, Debug, PartialEq, Eq)]
pub struct ActiveRule {
    pub exe: String,
    pub rate: PollingRate,
    pub restore: Option<PollingRate>,
}

/// What an [`ActiveRule`] says.
pub struct RuleData {
    pub exe: Seq<char>,
    pub rate: PollingRate,
    pub restore: Option<PollingRate>,
}

impl View for ActiveRule {
    type V = RuleData;

    open spec fn view(&self) -> RuleData {
        RuleData { exe: self.exe@, rate: self.rate, restore: self.restore }
    }
}

impl View for AppRule {
    type V = RuleData;

    open spec fn view(&self) -> RuleData {
        RuleData { exe: self.exe@, rate: self.rate, restore: self.restore }
    }
}

/// The name of a program without white space and quotes around it, in lower
/// case and without `.exe` at its end.
pub open spec fn exe_name(raw: Seq<char>) -> Seq<char> {
    without_end(
        lowered(trimmed(trimmed(raw, Margin::WhiteSpace), Margin::Quotes)),
        ".exe"@,
    )
}

/// The name of a program without white space and quotes around it, in lower
/// case and without `.exe` at its end.
pub fn normalize_exe(raw: &str) -> (r: String)
    ensures
        r@ == exe_name(raw@),
{
    let name = trim(raw, Margin::WhiteSpace);
    let name = trim(name.as_str(), Margin::Quotes);
    let name = lower(name.as_str());
    strip_end(name.as_str(), ".exe")
}

/// Whether one of the running programs goes by the name.
pub open spec fn is_running_in(processes: Seq<Seq<char>>, exe: Seq<char>) -> bool {
    exists|i: int| 0 <= i < processes.len() && exe_name(#[trigger] processes[i]) == exe_name(exe)
}

/// Whether one of the running programs goes by the name.
pub fn is_running(processes: &Vec<String>, exe: &str) -> (yes: bool)
    ensures
        yes == is_running_in(texts(processes@), exe@),
{
    let target = normalize_exe(exe);
    for i in 0..processes.len()
        invariant
            target@ == exe_name(exe@),
            forall|j: int| 0 <= j < i ==> exe_name(#[trigger] texts(processes@)[j]) != target@,
    {
        assert(texts(processes@)[i as int] == processes@[i as int]@);
        let name = normalize_exe(processes[i].as_str());
        if same_text(name.as_str(), target.as_str()) {
            return true;
        }
    }
    false
}

/// Whether the rule at `i` is in force: its program runs, and that of no
/// earlier rule.
pub open spec fn in_force(rules: Seq<AppRule>, processes: Seq<Seq<char>>, i: int) -> bool {
    &&& 0 <= i < rules.len()
    &&& is_running_in(processes, rules[i].exe@)
    &&& forall|j: int| 0 <= j < i ==> !is_running_in(processes, (#[trigger] rules[j]).exe@)
}

/// The rule that is in force: the first whose program runs.
pub fn active_rule(rules: &[AppRule], processes: &Vec<String>) -> (r: Option<ActiveRule>)
    ensures
        match r {
            Some(rule) => exists|i: int| #[trigger]
                in_force(rules@, texts(processes@), i) && rule@ == rules@[i]@,
            None => forall|i: int|
                0 <= i < rules@.len() ==> !is_running_in(
                    texts(processes@),
                    (#[trigger] rules@[i]).exe@,
                ),
        },
{
    for i in 0..rules.len()
        invariant
            forall|j: int|
                0 <= j < i ==> !is_running_in(texts(processes@), (#[trigger] rules@[j]).exe@),
    {
        if is_running(processes, rules[i].exe.as_str()) {
            assert(in_force(rules@, texts(processes@), i as int));
            return Some(
                ActiveRule {
                    exe: rules[i].exe.clone(),
                    rate: rules[i].rate,
                    restore: rules[i].restore,
                },
            );
        }
    }
    None
}

proof fn lemma_lowered_front(s: Seq<char>, margin: Margin)
    ensures
        without_front(lowered(s), margin) == lowered(without_front(s, margin)),
    decreases s.len(),
{
    if s.len() > 0 {
        assert(margin.holds(lowered(s)[0]) == margin.holds(s[0]));
        if margin.holds(s[0]) {
            assert(lowered(s).skip(1) =~= lowered(s.skip(1)));
            lemma_lowered_front(s.skip(1), margin);
        }
    }
}

proof fn lemma_lowered_back(s: Seq<char>, margin: Margin)
    ensures
        without_back(lowered(s), margin) == lowered(without_back(s, margin)),
    decreases s.len(),
{
    if s.len() > 0 {
        assert(margin.holds(lowered(s).last()) == margin.holds(s.last()));
        if margin.holds(s.last()) {
            assert(lowered(s).drop_last() =~= lowered(s.drop_last()));
            lemma_lowered_back(s.drop_last(), margin);
        }
    }
}

/// The case of a program's name does not matter.
pub proof fn law_case_does_not_matter(a: Seq<char>, b: Seq<char>)
    requires
        lowered(a) == lowered(b),
    ensures
        exe_name(a) == exe_name(b),
{
    lemma_lowered_name(a);
    lemma_lowered_name(b);
}

proof fn lemma_lowered_name(s: Seq<char>)
    ensures
        exe_name(lowered(s)) == exe_name(s),
{
    let bare = trimmed(s, Margin::WhiteSpace);
    lemma_lowered_front(s, Margin::WhiteSpace);
    lemma_lowered_back(without_front(s, Margin::WhiteSpace), Margin::WhiteSpace);
    assert(trimmed(lowered(s), Margin::WhiteSpace) == lowered(bare));
    lemma_lowered_front(bare, Margin::Quotes);
    lemma_lowered_back(without_front(bare, Margin::Quotes), Margin::Quotes);
    let name = trimmed(bare, Margin::Quotes);
    assert(lowered(lowered(name)) =~= lowered(name));
}

/// Whether a name has nothing around it that is trimmed.
pub open spec fn is_bare(name: Seq<char>) -> bool {
    &&& name.len() > 0
    &&& !Margin::WhiteSpace.holds(name[0]) && !Margin::WhiteSpace.holds(name.last())
    &&& !Margin::Quotes.holds(name[0]) && !Margin::Quotes.holds(name.last())
}

proof fn lemma_bare_stays(name: Seq<char>)
    requires
        is_bare(name),
    ensures
        exe_name(name) == without_end(lowered(name), ".exe"@),
{
    assert(trimmed(name, Margin::WhiteSpace) == name);
    assert(trimmed(name, Margin::Quotes) == name);
}

/// A name with `.exe` at its end and the one without it are the same program.
pub proof fn law_suffix_is_optional(name: Seq<char>)
    requires
        is_bare(name),
        without_end(lowered(name), ".exe"@) == lowered(name),
    ensures
        exe_name(name + ".exe"@) == exe_name(name),
{
    reveal_strlit(".exe");
    let long = name + ".exe"@;
    assert(long[0] == name[0]);
    assert(long.last() == 'e');
    lemma_bare_stays(name);
    lemma_bare_stays(long);
    assert(lowered(".exe"@) =~= ".exe"@);
    assert(lowered(long) =~= lowered(name) + ".exe"@);
    assert(lowered(long).subrange(name.len() as int, name.len() as int + 4) =~= ".exe"@);
    assert(without_end(lowered(long), ".exe"@) =~= lowered(name));
}

} // verus!
