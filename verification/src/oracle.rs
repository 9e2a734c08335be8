//! The oracle: externally supplied validator predicates over a rendering.
//!
//! A validator is any function from the rendered text to a verdict —
//! success, or a failure with a diagnostic.  An [`Evaluator`] holds an
//! ordered list of named validators and runs them fail-fast: the first
//! failure decides, later validators are not consulted.

use vstd::prelude::*;

verus! {

/// Evidence that `oracle`, applied to a string rendering exactly `text`,
/// returned success.
pub open spec fn oracle_accepts<F: Fn(String) -> Result<(), String>>(
    oracle: F,
    text: Seq<char>,
) -> bool {
    exists|s: String| s@ == text && call_ensures(oracle, (s,), Result::<(), String>::Ok(()))
}

/// Evidence that `oracle`, applied to a string rendering exactly `text`,
/// returned a failure carrying exactly `message`.
pub open spec fn oracle_rejects<F: Fn(String) -> Result<(), String>>(
    oracle: F,
    text: Seq<char>,
    message: Seq<char>,
) -> bool {
    exists|s: String, m: String|
        s@ == text && m@ == message && call_ensures(oracle, (s,), Result::<(), String>::Err(m))
}

/// One validator predicate with the name it was registered under.
pub struct Validator<F> {
    pub check: F,
    pub name: String,
}

/// An ordered list of validators, evaluated in registration order.
pub struct Evaluator<F> {
    pub validators: Vec<Validator<F>>,
}

impl<F: Fn(String) -> Result<(), String>> Evaluator<F> {
    /// An evaluator with no validators: it accepts everything.
    pub fn new() -> (e: Self)
        ensures
            e.validators@.len() == 0,
    {
        Evaluator { validators: Vec::new() }
    }

    /// Registers one more validator, after all present ones.
    pub fn add_validator(&mut self, check: F, name: String)
        ensures
            final(self).validators@ == old(self).validators@.push(
                (Validator { check, name }),
            ),
    {
        self.validators.push(Validator { check, name });
    }

    /// Runs the validators in order against `text`, fail-fast: success
    /// exactly when every validator succeeds; otherwise the verdict of the
    /// first validator that failed, and no later validator is consulted.
    pub fn evaluate(&self, text: &String) -> (r: Result<(), String>)
        requires
            forall|i: int, s: String|
                0 <= i < self.validators@.len() ==> #[trigger] call_requires(
                    self.validators@[i].check,
                    (s,),
                ),
        ensures
            r is Ok ==> forall|i: int|
                0 <= i < self.validators@.len() ==> oracle_accepts(
                    #[trigger] self.validators@[i].check,
                    text@,
                ),
            r matches Err(message) ==> exists|k: int|
                {
                    &&& 0 <= k < self.validators@.len()
                    &&& oracle_rejects(#[trigger] self.validators@[k].check, text@, message@)
                    &&& forall|i: int|
                        0 <= i < k ==> oracle_accepts(#[trigger] self.validators@[i].check, text@)
                },
    {
        let mut k: usize = 0;
        while k < self.validators.len()
            invariant
                forall|i: int, s: String|
                    0 <= i < self.validators@.len() ==> #[trigger] call_requires(
                        self.validators@[i].check,
                        (s,),
                    ),
                k <= self.validators@.len(),
                forall|i: int|
                    0 <= i < k ==> oracle_accepts(#[trigger] self.validators@[i].check, text@),
            decreases self.validators@.len() - k,
        {
            let argument = text.clone();
            let ghost garg = argument;
            let verdict = (self.validators[k].check)(argument);
            proof {
                assert(call_ensures(self.validators@[k as int].check, (garg,), verdict));
            }
            match verdict {
                Ok(()) => {
                    proof {
                        assert(verdict is Ok && verdict->Ok_0 == ());
                        assert(verdict == Result::<(), String>::Ok(()));
                        assert(garg@ == text@ && call_ensures(
                            self.validators@[k as int].check,
                            (garg,),
                            Result::<(), String>::Ok(()),
                        ));
                    }
                },
                Err(message) => {
                    proof {
                        assert(verdict == Result::<(), String>::Err(message));
                        assert(garg@ == text@ && call_ensures(
                            self.validators@[k as int].check,
                            (garg,),
                            Result::<(), String>::Err(message),
                        ));
                    }
                    return Err(message);
                },
            }
            k += 1;
        }
        Ok(())
    }
}

} // verus!
