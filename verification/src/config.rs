//! The materialized tab configuration as the core sees it: an ordered list
//! of named command specifications, of which only the enabled ones reach the
//! tab state machine.

use vstd::prelude::*;

verus! {

/// One environment override applied to a tab's command.
pub struct EnvKey {
    pub key: String,
    pub value: String,
}

/// One configured tab: a named command with its arguments, environment
/// overrides, optional display colour and enabled flag.
pub struct TabConfig {
    pub name: String,
    pub command: String,
    pub color: Option<String>,
    pub env: Vec<EnvKey>,
    pub enabled: bool,
    pub args: Vec<String>,
}

/// The predicate that keeps a tab: its `enabled` flag.
pub open spec fn enabled_pred() -> spec_fn(TabConfig) -> bool {
    |t: TabConfig| t.enabled
}

/// The enabled tabs of `tabs`, in their original order.
pub open spec fn spec_enabled_tabs(tabs: Seq<TabConfig>) -> Seq<TabConfig> {
    tabs.filter(enabled_pred())
}

/// Keeps the enabled tabs, in their original order; disabled tabs never
/// reach the tab state machine.
pub fn enabled_tabs(tabs: Vec<TabConfig>) -> (r: Vec<TabConfig>)
    ensures
        r@ == spec_enabled_tabs(tabs@),
{
    let ghost orig: Seq<TabConfig> = tabs@;
    let mut rest = tabs;
    let mut r: Vec<TabConfig> = Vec::new();
    let ghost mut processed: Seq<TabConfig> = Seq::empty();
    proof {
        assert(orig =~= processed + rest@);
        assert(r@ =~= spec_enabled_tabs(processed));
    }
    while rest.len() > 0
        invariant
            orig == processed + rest@,
            r@ == spec_enabled_tabs(processed),
        decreases rest@.len(),
    {
        let ghost prev: Seq<TabConfig> = processed;
        let t = rest.remove(0);
        proof {
            processed = prev.push(t);
            assert(processed + rest@ =~= orig);
            prev.lemma_filter_push(t, enabled_pred());
            assert(spec_enabled_tabs(processed) == if t.enabled {
                spec_enabled_tabs(prev).push(t)
            } else {
                spec_enabled_tabs(prev)
            });
        }
        if t.enabled {
            r.push(t);
        }
    }
    proof {
        assert(processed =~= orig);
    }
    r
}

/// The names of the tabs of `tabs`, in their original order; these become
/// the titles handed to the tab state machine.
pub fn tab_names(tabs: &Vec<TabConfig>) -> (r: Vec<String>)
    ensures
        r@.len() == tabs@.len(),
        forall|i: int| 0 <= i < tabs@.len() ==> r@[i]@ == tabs@[i].name@,
{
    let mut r: Vec<String> = Vec::new();
    let mut i: usize = 0;
    while i < tabs.len()
        invariant
            i <= tabs@.len(),
            r@.len() == i,
            forall|j: int| 0 <= j < i ==> r@[j]@ == tabs@[j].name@,
        decreases tabs@.len() - i,
    {
        r.push(tabs[i].name.clone());
        i = i + 1;
    }
    r
}

} // verus!
