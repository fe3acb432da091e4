use vstd::prelude::*;

use crate::text::{contains_bytes, contains_bytes_ci, contains_bytes_exact, contains_ci, eq_ci,
    trimmed, trimmed_eq_ci};

verus! {

/// "pro" in ASCII bytes.
pub open spec fn pro_pattern() -> Seq<u8> {
    seq![112u8, 114u8, 111u8]
}

/// "enterprise" in ASCII bytes.
pub open spec fn enterprise_pattern() -> Seq<u8> {
    seq![101u8, 110u8, 116u8, 101u8, 114u8, 112u8, 114u8, 105u8, 115u8, 101u8]
}

/// "education" in ASCII bytes.
pub open spec fn education_pattern() -> Seq<u8> {
    seq![101u8, 100u8, 117u8, 99u8, 97u8, 116u8, 105u8, 111u8, 110u8]
}

/// "home" in ASCII bytes.
pub open spec fn home_pattern() -> Seq<u8> {
    seq![104u8, 111u8, 109u8, 101u8]
}

/// "running" in ASCII bytes.
pub open spec fn running_pattern() -> Seq<u8> {
    seq![114u8, 117u8, 110u8, 110u8, 105u8, 110u8, 103u8]
}

/// "mysql" in ASCII bytes.
pub open spec fn mysql_pattern() -> Seq<u8> {
    seq![109u8, 121u8, 115u8, 113u8, 108u8]
}

/// The edition string names a tier the container runtime supports.
pub open spec fn edition_qualifies(s: Seq<u8>) -> bool {
    ||| contains_ci(s, pro_pattern())
    ||| contains_ci(s, enterprise_pattern())
    ||| contains_ci(s, education_pattern())
}

/// The compatibility verdict for an edition string: a qualifying tier is
/// compatible; the one recognised consumer tier is not; a string from which
/// no edition can be determined is treated as compatible, so that a
/// detection failure never aborts the bootstrap.
pub open spec fn edition_compatible(s: Seq<u8>) -> bool {
    if edition_qualifies(s) {
        true
    } else if contains_ci(s, home_pattern()) {
        false
    } else {
        true
    }
}

/// The probes of the host: each one reads the text a fixed command printed
/// and decides; running the commands is the caller's business.
pub struct SystemSetup;

impl SystemSetup {
    /// Decides edition compatibility from the operating-system caption the
    /// host reported, ignoring ASCII case.
    pub fn check_windows_version(output: &Vec<u8>) -> (r: bool)
        ensures
            r == edition_compatible(output@),
    {
        let pro: Vec<u8> = vec![112u8, 114u8, 111u8];
        let enterprise: Vec<u8> = vec![101u8, 110u8, 116u8, 101u8, 114u8, 112u8, 114u8, 105u8,
            115u8, 101u8];
        let education: Vec<u8> = vec![101u8, 100u8, 117u8, 99u8, 97u8, 116u8, 105u8, 111u8, 110u8];
        let home: Vec<u8> = vec![104u8, 111u8, 109u8, 101u8];
        proof {
            assert(pro@ =~= pro_pattern());
            assert(enterprise@ =~= enterprise_pattern());
            assert(education@ =~= education_pattern());
            assert(home@ =~= home_pattern());
        }
        if contains_bytes_ci(output, &pro) {
            true
        } else if contains_bytes_ci(output, &enterprise) {
            true
        } else if contains_bytes_ci(output, &education) {
            true
        } else if contains_bytes_ci(output, &home) {
            false
        } else {
            true
        }
    }

    /// Decides from the service-status text whether the runtime service is
    /// running: the text, trimmed, must read exactly "running" up to ASCII
    /// case.
    pub fn is_docker_running(status_output: &Vec<u8>) -> (r: bool)
        ensures
            r == eq_ci(trimmed(status_output@), running_pattern()),
    {
        let running: Vec<u8> = vec![114u8, 117u8, 110u8, 110u8, 105u8, 110u8, 103u8];
        proof {
            assert(running@ =~= running_pattern());
        }
        trimmed_eq_ci(status_output, &running)
    }

    /// Decides from a container listing whether the database container is
    /// present: the listing must name it, byte for byte.
    pub fn check_mysql_container(ps_output: &Vec<u8>) -> (r: bool)
        ensures
            r == contains_bytes(ps_output@, mysql_pattern()),
    {
        let pat: Vec<u8> = vec![109u8, 121u8, 115u8, 113u8, 108u8];
        proof {
            assert(pat@ =~= mysql_pattern());
        }
        contains_bytes_exact(ps_output, &pat)
    }
}

} // verus!
