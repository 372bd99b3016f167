use vstd::prelude::*;

verus! {

/// The errors among a run of export results, in the order they occurred.
pub open spec fn errs_of<E>(s: Seq<Result<(), E>>) -> Seq<E>
    decreases s.len(),
{
    if s.len() == 0 {
        Seq::empty()
    } else if s.first() is Err {
        seq![s.first()->Err_0] + errs_of(s.drop_first())
    } else {
        errs_of(s.drop_first())
    }
}

/// Law: a run of export results has no error exactly when every result is
/// `Ok`.
pub proof fn lemma_errs_of_empty<E>(s: Seq<Result<(), E>>)
    ensures
        errs_of(s).len() == 0 <==> (forall|i: int| 0 <= i < s.len() ==> s[i] is Ok),
    decreases s.len(),
{
    if s.len() > 0 {
        lemma_errs_of_empty(s.drop_first());
        assert(forall|i: int|
            0 <= i < s.drop_first().len() ==> s.drop_first()[i] == s[i + 1]);
        if errs_of(s).len() == 0 {
            assert forall|i: int| 0 <= i < s.len() implies s[i] is Ok by {
                if i > 0 {
                    assert(s.drop_first()[i - 1] is Ok);
                }
            }
        }
    }
}

/// Collects the outcomes of a run of binding exports: `Ok` when every
/// export succeeded, otherwise every error, in the order the exports were
/// attempted.
pub fn bindgen<E>(results: Vec<Result<(), E>>) -> (r: Result<(), Vec<E>>)
    ensures
        r is Ok <==> (forall|i: int| 0 <= i < results@.len() ==> results@[i] is Ok),
        r is Err ==> r->Err_0@ == errs_of(results@),
{
    let ghost all = results@;
    let mut rest = results;
    let mut errs: Vec<E> = Vec::new();
    proof {
        assert(rest@ == all.skip(0)) by {
            assert(all.skip(0) =~= all);
        }
    }
    while rest.len() > 0
        invariant
            errs_of(all) =~= errs@ + errs_of(rest@),
            exists|k: int| 0 <= k <= all.len() && rest@ == all.skip(k),
        decreases rest@.len(),
    {
        let ghost pre = rest@;
        let first = rest.remove(0);
        proof {
            assert(rest@ =~= pre.drop_first());
            let k = choose|k: int| 0 <= k <= all.len() && pre == all.skip(k);
            assert(pre.drop_first() =~= all.skip(k + 1));
        }
        match first {
            Ok(()) => {},
            Err(e) => {
                errs.push(e);
                proof {
                    assert(errs@ + errs_of(rest@) =~= errs_of(all));
                }
            },
        }
    }
    proof {
        assert(errs_of(all) =~= errs@);
        lemma_errs_of_empty(all);
    }
    if errs.len() == 0 {
        proof {
            assert(errs@ =~= Seq::<E>::empty());
        }
        Ok(())
    } else {
        Err(errs)
    }
}

} // verus!
