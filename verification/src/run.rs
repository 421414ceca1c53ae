//! A run over many hosts: one outcome for each, none touched by another, and
//! the status that the run as a whole ends with.

use vstd::prelude::*;

use crate::cert::retrieval_view;
use crate::cert_test::{outcome_at, CertTest, CertTestView};
use crate::clock::UnixTime;
use crate::error::{Error, ErrorView};

verus! {

/// The mathematical content of what is known of one host before it is
/// evaluated: its name and what retrieving its chain gave.
pub open spec fn probe_view(probe: (&str, Result<Vec<Vec<u8>>, Error>)) -> (
    Seq<char>,
    Result<Seq<Seq<u8>>, ErrorView>,
) {
    (probe.0@, retrieval_view(probe.1))
}

/// The mathematical content of a list of probes.
pub open spec fn probe_views(probes: Seq<(&str, Result<Vec<Vec<u8>>, Error>)>) -> Seq<
    (Seq<char>, Result<Seq<Seq<u8>>, ErrorView>),
> {
    Seq::new(probes.len(), |i: int| probe_view(probes[i]))
}

/// The mathematical content of a list of outcomes.
pub open spec fn test_views(tests: Seq<CertTest>) -> Seq<CertTestView> {
    Seq::new(tests.len(), |i: int| tests[i]@)
}

/// The outcomes of a run: one for each probe, in the order given, the
/// `i`-th made from the `i`-th probe and the `i`-th instant alone.
pub open spec fn outcomes(
    probes: Seq<(Seq<char>, Result<Seq<Seq<u8>>, ErrorView>)>,
    threshold: int,
    nows: Seq<UnixTime>,
) -> Seq<CertTestView> {
    Seq::new(
        probes.len(),
        |i: int|
            CertTestView {
                hostname: probes[i].0,
                result: outcome_at(probes[i].1, threshold, nows[i]),
            },
    )
}

/// A run is clean when every host passed.
pub open spec fn all_passed(tests: Seq<CertTestView>) -> bool {
    forall|i: int| 0 <= i < tests.len() ==> (#[trigger] tests[i]).result is Ok
}

/// Evaluates every probe, in order, each against the system clock.
///
/// There is one outcome for each probe, whatever became of the others: the
/// outcomes are those that `outcomes` gives for the instants at which the
/// clock was read.
pub fn run<'a>(
    probes: Vec<(&'a str, Result<Vec<Vec<u8>>, Error>)>,
    days_to_expiration: i64,
) -> (tests: Vec<CertTest<'a>>)
    ensures
        tests.len() == probes.len(),
        exists|nows: Seq<UnixTime>|
            nows.len() == probes.len() && test_views(tests@) == outcomes(
                probe_views(probes@),
                days_to_expiration as int,
                nows,
            ),
{
    let ghost views = probe_views(probes@);
    let ghost mut nows: Seq<UnixTime> = Seq::empty();
    let mut tests: Vec<CertTest<'a>> = Vec::new();
    for probe in it: probes.into_iter()
        invariant
            it.seq() == probes@,
            views == probe_views(probes@),
            tests.len() == it.index(),
            nows.len() == it.index(),
            forall|j: int|
                0 <= j < it.index() ==> (#[trigger] tests[j])@ == (CertTestView {
                    hostname: views[j].0,
                    result: outcome_at(views[j].1, days_to_expiration as int, nows[j]),
                }),
    {
        let (hostname, retrieval) = probe;
        let test = CertTest::new(hostname, days_to_expiration, retrieval);
        proof {
            let now = choose|now: UnixTime|
                test@.result == outcome_at(
                    retrieval_view(retrieval),
                    days_to_expiration as int,
                    now,
                );
            nows = nows.push(now);
        }
        tests.push(test);
    }
    assert(test_views(tests@) =~= outcomes(views, days_to_expiration as int, nows));
    tests
}

/// How a run ends: well if every host passed, with a `CertoTestFailure`
/// otherwise.
pub fn conclude(tests: &Vec<CertTest>) -> (end: Result<(), Error>)
    ensures
        end is Ok <==> all_passed(test_views(tests@)),
        end matches Err(e) ==> e@ == ErrorView::CertoTestFailure(1),
{
    let mut i: usize = 0;
    while i < tests.len()
        invariant
            i <= tests.len(),
            forall|j: int| 0 <= j < i ==> (#[trigger] test_views(tests@)[j]).result is Ok,
        decreases tests.len() - i,
    {
        if !tests[i].success() {
            assert(!(test_views(tests@)[i as int].result is Ok));
            return Err(Error::CertoTestFailure(1));
        }
        i += 1;
    }
    Ok(())
}

/// The status the process exits with: zero exactly when every host passed.
pub fn exit_status(tests: &Vec<CertTest>) -> (status: i32)
    ensures
        status == 0 <==> all_passed(test_views(tests@)),
        status == 0 || status == 1,
{
    match conclude(tests) {
        Ok(()) => 0,
        Err(_) => 1,
    }
}

/// Hosts do not touch each other: the outcome of a host is made from its own
/// probe and the instant it was judged at, so two runs that agree on one
/// host's probe and instant agree on its outcome, whatever the other hosts
/// came to; and every probe has its outcome.
pub proof fn lemma_hosts_are_isolated(
    first: Seq<(Seq<char>, Result<Seq<Seq<u8>>, ErrorView>)>,
    second: Seq<(Seq<char>, Result<Seq<Seq<u8>>, ErrorView>)>,
    threshold: int,
    first_nows: Seq<UnixTime>,
    second_nows: Seq<UnixTime>,
    i: int,
    j: int,
)
    requires
        0 <= i < first.len(),
        0 <= j < second.len(),
        first[i] == second[j],
        first_nows[i] == second_nows[j],
    ensures
        outcomes(first, threshold, first_nows).len() == first.len(),
        outcomes(second, threshold, second_nows).len() == second.len(),
        outcomes(first, threshold, first_nows)[i] == outcomes(second, threshold, second_nows)[j],
{
}

} // verus!
