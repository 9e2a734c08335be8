use minimizer::document::RustSourceFile;
use minimizer::oracle::Evaluator;
use std::cell::RefCell;
use std::rc::Rc;

#[test]
fn empty_evaluator_accepts_everything() {
    let e: Evaluator<fn(String) -> Result<(), String>> = Evaluator::new();
    assert_eq!(e.evaluate(&"anything".to_string()), Ok(()));
}

#[test]
fn evaluation_is_fail_fast_and_ordered() {
    let log: Rc<RefCell<Vec<usize>>> = Rc::new(RefCell::new(Vec::new()));
    let mut e = Evaluator::new();
    for (id, fails) in [(0usize, false), (1, true), (2, false)] {
        let log2 = log.clone();
        e.add_validator(
            move |_s: String| {
                log2.borrow_mut().push(id);
                if fails {
                    Err(format!("validator {} failed", id))
                } else {
                    Ok(())
                }
            },
            format!("validator {}", id),
        );
    }
    let verdict = e.evaluate(&"text".to_string());
    assert_eq!(verdict, Err("validator 1 failed".to_string()));
    // the first failure decides; the third validator was never consulted
    assert_eq!(*log.borrow(), vec![0, 1]);
}

#[test]
fn all_validators_passing_means_success() {
    let log: Rc<RefCell<Vec<String>>> = Rc::new(RefCell::new(Vec::new()));
    let mut e = Evaluator::new();
    for id in 0..3usize {
        let log2 = log.clone();
        e.add_validator(
            move |s: String| {
                log2.borrow_mut().push(format!("{}:{}", id, s));
                Ok(())
            },
            format!("v{}", id),
        );
    }
    assert_eq!(e.evaluate(&"abc".to_string()), Ok(()));
    assert_eq!(
        *log.borrow(),
        vec!["0:abc".to_string(), "1:abc".to_string(), "2:abc".to_string()]
    );
}

#[test]
fn evaluator_drives_a_reduction_run() {
    let mut e = Evaluator::new();
    for must_contain in ["keep1", "keep2"] {
        e.add_validator(
            move |s: String| {
                if s.contains(must_contain) {
                    Ok(())
                } else {
                    Err(format!("{} is gone", must_contain))
                }
            },
            must_contain.to_string(),
        );
    }
    let mut d = RustSourceFile::from_lines(
        ["junk", "keep1", "junk", "junk", "keep2", "junk", "junk", "junk"]
            .iter()
            .map(|l| l.to_string())
            .collect(),
    );
    let oracle = |s: String| e.evaluate(&s);
    let r = d.try_remove_lines(&oracle, &|_s: String| true);
    assert!(r.is_ok());
    // both guarded lines survive, and the final rendering passes the oracle
    let rendering = d.to_string();
    assert!(rendering.contains("keep1"));
    assert!(rendering.contains("keep2"));
    assert_eq!(e.evaluate(&rendering), Ok(()));
}
