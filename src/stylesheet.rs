//! The stylesheet store: rules in the order they were added, each with its
//! selector list, its declaration block and the specificity of each of its
//! selectors, fixed when the rule is added.
use vstd::prelude::*;
use crate::properties::{CssProperty, CssValue};
use crate::selector::{CssSelector, Specificity};
use crate::types::{CssError, CssLanguageLevel, CssStylesheetParamsVersion};

verus! {

/// One declaration of a block: a property, its value, and whether it is
/// marked `!important`.
#[derive(Clone, Copy, Debug, PartialEq, Eq, Structural)]
pub struct CssDeclaration {
    pub property: CssProperty,
    pub value: CssValue,
    pub important: bool,
}

/// A rule: a selector list sharing one declaration block.
#[derive(Clone, Debug)]
pub struct CssRule {
    pub selectors: Vec<CssSelector>,
    pub declarations: Vec<CssDeclaration>,
}

impl CssRule {
    /// Every selector of the rule has parts and a countable specificity.
    pub open spec fn wf(&self) -> bool {
        forall|k: int|
            0 <= k < self.selectors@.len() ==> (#[trigger] self.selectors@[k]).wf()
                && self.selectors@[k].spec_size() <= u32::MAX
    }
}

/// The parameters a stylesheet is created with.
#[derive(Clone, Debug)]
pub struct CssStylesheetParams {
    pub params_version: CssStylesheetParamsVersion,
    pub level: CssLanguageLevel,
    pub charset: String,
    pub url: String,
    pub title: String,
    pub allow_quirks: bool,
    pub inline_style: bool,
}

/// A stylesheet: its parameters and its rules in insertion order, with the
/// specificity of each selector of each rule.
#[derive(Clone, Debug)]
pub struct CssStylesheet {
    pub params: CssStylesheetParams,
    pub rules: Vec<CssRule>,
    pub specificities: Vec<Vec<Specificity>>,
}

impl CssStylesheet {
    /// Every rule is well formed and `specificities[r][k]` is the
    /// specificity of selector `k` of rule `r`.
    pub open spec fn wf(&self) -> bool {
        &&& self.specificities@.len() == self.rules@.len()
        &&& forall|r: int| 0 <= r < self.rules@.len() ==> (#[trigger] self.rules@[r]).wf()
        &&& forall|r: int|
            0 <= r < self.rules@.len() ==> (#[trigger] self.specificities@[r])@.len()
                == self.rules@[r].selectors@.len()
        &&& forall|r: int, k: int|
            0 <= r < self.rules@.len() && 0 <= k < self.rules@[r].selectors@.len() ==> {
                let s = #[trigger] self.specificities@[r]@[k];
                s.spec_triple() == self.rules@[r].selectors@[k].spec_specificity()
            }
    }

    /// Creates an empty stylesheet.
    pub fn new(params: CssStylesheetParams) -> (s: CssStylesheet)
        ensures
            s.wf(),
            s.rules@.len() == 0,
            s.params == params,
    {
        CssStylesheet { params, rules: Vec::new(), specificities: Vec::new() }
    }

    /// Number of rules.
    pub fn size(&self) -> (n: usize)
        ensures
            n == self.rules@.len(),
    {
        self.rules.len()
    }

    /// Appends a rule after the others. A rule with a selector that has no
    /// parts, or more predicates than `u32::MAX`, is refused with
    /// `CssInvalid` and the stylesheet is left as it was.
    pub fn append_rule(&mut self, rule: CssRule) -> (r: Result<(), CssError>)
        requires
            old(self).wf(),
        ensures
            final(self).wf(),
            final(self).params == old(self).params,
            r is Ok <==> rule.wf(),
            r is Ok ==> final(self).rules@ == old(self).rules@.push(rule),
            r is Err ==> r == Err::<(), CssError>(CssError::CssInvalid) && final(self).rules@
                == old(self).rules@ && final(self).specificities@ == old(self).specificities@,
    {
        let mut specs: Vec<Specificity> = Vec::new();
        let mut k: usize = 0;
        while k < rule.selectors.len()
            invariant
                *self == *old(self),
                self.wf(),
                k <= rule.selectors@.len(),
                specs@.len() == k,
                forall|j: int| 0 <= j < k ==> (#[trigger] rule.selectors@[j]).wf()
                    && rule.selectors@[j].spec_size() <= u32::MAX,
                forall|j: int|
                    0 <= j < k ==> {
                        let s = #[trigger] specs@[j];
                        s.spec_triple() == rule.selectors@[j].spec_specificity()
                    },
            decreases rule.selectors@.len() - k,
        {
            if !rule.selectors[k].is_countable() {
                return Err(CssError::CssInvalid);
            }
            let s = rule.selectors[k].specificity();
            specs.push(s);
            k = k + 1;
        }
        let ghost old_self = *self;
        self.rules.push(rule);
        self.specificities.push(specs);
        assert forall|r: int| 0 <= r < self.rules@.len() implies (#[trigger] self.rules@[r]).wf() by {
            if r < old_self.rules@.len() {
                assert(self.rules@[r] == old_self.rules@[r]);
            }
        }
        assert forall|r: int|
            0 <= r < self.rules@.len() implies (#[trigger] self.specificities@[r])@.len()
                == self.rules@[r].selectors@.len() by {
            if r < old_self.rules@.len() {
                assert(self.rules@[r] == old_self.rules@[r]);
                assert(self.specificities@[r] == old_self.specificities@[r]);
            }
        }
        assert forall|r: int, k: int|
            0 <= r < self.rules@.len() && 0 <= k < self.rules@[r].selectors@.len() implies {
                let s = #[trigger] self.specificities@[r]@[k];
                s.spec_triple() == self.rules@[r].selectors@[k].spec_specificity()
            } by {
            if r < old_self.rules@.len() {
                assert(self.rules@[r] == old_self.rules@[r]);
                assert(self.specificities@[r] == old_self.specificities@[r]);
            }
        }
        Ok(())
    }
}

/// Creates an empty stylesheet with the given parameters.
pub fn css_stylesheet_create(params: CssStylesheetParams) -> (s: CssStylesheet)
    ensures
        s.wf(),
        s.rules@.len() == 0,
        s.params == params,
{
    CssStylesheet::new(params)
}

} // verus!
