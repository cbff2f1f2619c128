//! The check for occupied ports before a service that binds several is started.
//!
//! A port on which a short connection attempt succeeds belongs to something
//! already. The host makes the attempts; the library names the ports and
//! judges the answers.

use vstd::prelude::*;
use vstd::string::*;
use crate::resolver::flag_at;
use crate::text::{decimal, decimal_string, texts};

verus! {

/// The auxiliary service's internal port for coordination.
pub const MASTER_PORT: u16 = 9333;

/// The auxiliary service's internal port for data.
pub const VOLUME_PORT: u16 = 8080;

/// The auxiliary service's internal port for metadata.
pub const FILER_PORT: u16 = 8888;

/// How long one connection attempt of the preflight may take, in milliseconds.
pub const PREFLIGHT_TIMEOUT_MS: u64 = 120;

/// A port that a service is about to bind, with the role it plays.
#[derive(Clone, Debug, PartialEq, Eq)]
pub struct PortCheck {
    pub name: String,
    pub port: u16,
}

pub struct PortCheckView {
    pub name: Seq<char>,
    pub port: u16,
}

impl View for PortCheck {
    type V = PortCheckView;

    open spec fn view(&self) -> PortCheckView {
        PortCheckView { name: self.name@, port: self.port }
    }
}

/// The views of a list of port checks.
pub open spec fn check_views(checks: Seq<PortCheck>) -> Seq<PortCheckView> {
    checks.map_values(|c: PortCheck| c@)
}

/// The four ports of the auxiliary service: three fixed internal ones and the
/// configured external one.
pub open spec fn required_ports(s3_port: u16) -> Seq<PortCheckView> {
    seq![
        PortCheckView { name: "master"@, port: MASTER_PORT },
        PortCheckView { name: "volume"@, port: VOLUME_PORT },
        PortCheckView { name: "filer"@, port: FILER_PORT },
        PortCheckView { name: "s3"@, port: s3_port },
    ]
}

/// Lists the ports that must be free before the auxiliary service starts.
pub fn preflight_ports(s3_port: u16) -> (checks: Vec<PortCheck>)
    ensures
        check_views(checks@) == required_ports(s3_port),
{
    let mut checks: Vec<PortCheck> = Vec::new();
    checks.push(PortCheck { name: String::from_str("master"), port: MASTER_PORT });
    checks.push(PortCheck { name: String::from_str("volume"), port: VOLUME_PORT });
    checks.push(PortCheck { name: String::from_str("filer"), port: FILER_PORT });
    checks.push(PortCheck { name: String::from_str("s3"), port: s3_port });
    assert(check_views(checks@) =~= required_ports(s3_port));
    checks
}

/// How a conflict is reported: the role, a colon, the port.
pub open spec fn port_label(check: PortCheckView) -> Seq<char> {
    check.name + ":"@ + decimal(check.port as nat)
}

/// The labels of the checked ports that are occupied, in the order of the
/// checks. `open` holds, for each check, whether a connection succeeded.
pub open spec fn conflict_labels(checks: Seq<PortCheckView>, open: Seq<bool>) -> Seq<Seq<char>>
    decreases checks.len(),
{
    if checks.len() == 0 {
        Seq::empty()
    } else {
        let rest = conflict_labels(checks.drop_last(), open);
        if flag_at(open, checks.len() - 1) {
            rest.push(port_label(checks.last()))
        } else {
            rest
        }
    }
}

/// There is a conflict exactly when some checked port is occupied.
pub proof fn lemma_conflict_iff_occupied(checks: Seq<PortCheckView>, open: Seq<bool>)
    ensures
        conflict_labels(checks, open).len() > 0 <==> exists|i: int|
            0 <= i < checks.len() && flag_at(open, i),
    decreases checks.len(),
{
    if checks.len() > 0 {
        let shorter = checks.drop_last();
        lemma_conflict_iff_occupied(shorter, open);
        if conflict_labels(checks, open).len() > 0 {
            if flag_at(open, checks.len() - 1) {
                assert(0 <= checks.len() - 1 < checks.len() && flag_at(open, checks.len() - 1));
            } else {
                let i = choose|i: int| 0 <= i < shorter.len() && flag_at(open, i);
                assert(0 <= i < checks.len() && flag_at(open, i));
            }
        }
        if exists|i: int| 0 <= i < checks.len() && flag_at(open, i) {
            let i = choose|i: int| 0 <= i < checks.len() && flag_at(open, i);
            if i < checks.len() - 1 {
                assert(0 <= i < shorter.len() && flag_at(open, i));
            }
        }
    }
}

/// Names the checked ports on which something already listens.
pub fn port_conflicts(checks: &Vec<PortCheck>, open: &Vec<bool>) -> (conflicts: Vec<String>)
    ensures
        texts(conflicts@) == conflict_labels(check_views(checks@), open@),
{
    let mut conflicts: Vec<String> = Vec::new();
    let mut i: usize = 0;
    assert(check_views(checks@).subrange(0, 0) =~= Seq::<PortCheckView>::empty());
    assert(texts(conflicts@) =~= Seq::<Seq<char>>::empty());
    while i < checks.len()
        invariant
            i <= checks.len(),
            texts(conflicts@) == conflict_labels(
                check_views(checks@).subrange(0, i as int),
                open@,
            ),
        decreases checks.len() - i,
    {
        let ghost before = check_views(checks@).subrange(0, i as int);
        let ghost after = check_views(checks@).subrange(0, i + 1);
        let ghost listed = texts(conflicts@);
        proof {
            assert(after.drop_last() =~= before);
            assert(after.last() == checks@[i as int]@);
        }
        if i < open.len() && open[i] {
            let digits = decimal_string(checks[i].port as u64);
            let mut label = checks[i].name.clone();
            label.append(":");
            label.append(digits.as_str());
            conflicts.push(label);
            assert(texts(conflicts@) =~= listed.push(port_label(checks@[i as int]@)));
        }
        i = i + 1;
    }
    assert(check_views(checks@).subrange(0, i as int) =~= check_views(checks@));
    conflicts
}

} // verus!
