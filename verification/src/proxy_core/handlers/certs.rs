use vstd::prelude::*;
use vstd::string::*;
use crate::error::Error;
use crate::proxy_core::handlers::filesystem::{
    lemma_safe_path_stays_inside, lies_inside, safe_path, spec_safe_path,
};
use crate::proxy_core::models::certs::{CertDir, CertPath, CertificateConfig, CertificateType, KeyPath};
use crate::proxy_core::models::filesystem::FileWrite;
use crate::proxy_core::models::routes::Host;
use crate::services::certs::self_signed::{
    create_self_signed_certificate_files, is_certificate_pem, is_private_key_pem, is_self_signed_pair_for,
};
use crate::text::concat_str;

verus! {

pub open spec fn key_file_name(host: Seq<char>) -> Seq<char> {
    host + ".key"@
}

pub open spec fn cert_file_name(host: Seq<char>) -> Seq<char> {
    host + ".pem"@
}

/// Where a host's private key and certificate live: `<host>.key` and `<host>.pem` inside the
/// certificate directory, or `None` when the host name would leave that directory.
pub open spec fn spec_certificate_paths(host: Seq<char>, cert_dir: Seq<char>) -> Option<
    (Seq<char>, Seq<char>),
> {
    match (spec_safe_path(cert_dir, key_file_name(host)), spec_safe_path(cert_dir, cert_file_name(host))) {
        (Some(k), Some(c)) => Some((k, c)),
        _ => None,
    }
}

/// A host's key and certificate paths lie inside the certificate directory, whatever the host
/// name holds.
pub proof fn lemma_certificate_paths_inside(host: Seq<char>, cert_dir: Seq<char>)
    ensures
        spec_certificate_paths(host, cert_dir) matches Some((k, c)) ==> lies_inside(cert_dir, k)
            && lies_inside(cert_dir, c),
{
    lemma_safe_path_stays_inside(cert_dir, key_file_name(host));
    lemma_safe_path_stays_inside(cert_dir, cert_file_name(host));
}

/// The key and certificate paths of `host` inside `cert_dir`.
pub fn certificate_paths(host: &Host, cert_dir: &CertDir) -> (res: Result<(KeyPath, CertPath), Error>)
    ensures
        match spec_certificate_paths(host@, cert_dir@) {
            Some((k, c)) => res matches Ok((kp, cp)) && kp@ == k && cp@ == c,
            None => res matches Err(Error::FileSystem(m)) && m@
                == "Path traverses above the base directory"@,
        },
{
    let cert_filename = concat_str(host.as_str(), ".pem");
    let key_filename = concat_str(host.as_str(), ".key");
    let key_path = safe_path(cert_dir.as_str(), key_filename.as_str())?;
    let cert_path = safe_path(cert_dir.as_str(), cert_filename.as_str())?;
    Ok((key_path, cert_path))
}

/// The files to load into the certificate store for a route: none for a route without TLS,
/// else its key and certificate paths.
pub fn tls_files_of(config: &CertificateConfig) -> (res: Result<Option<(KeyPath, CertPath)>, Error>)
    ensures
        config.cert_type == CertificateType::NoTls ==> res matches Ok(None),
        config.cert_type != CertificateType::NoTls ==> match spec_certificate_paths(config.host@, config.cert_dir@) {
            Some((k, c)) => res matches Ok(Some((kp, cp))) && kp@ == k && cp@ == c,
            None => res matches Err(Error::FileSystem(m)) && m@
                == "Path traverses above the base directory"@,
        },
{
    if config.cert_type == CertificateType::NoTls {
        return Ok(None);
    }
    let paths = certificate_paths(&config.host, &config.cert_dir)?;
    Ok(Some(paths))
}

/// The routes that get a self-signed certificate, in order.
pub open spec fn self_signed_configs(configs: Seq<CertificateConfig>) -> Seq<CertificateConfig>
    decreases configs.len(),
{
    if configs.len() == 0 {
        Seq::<CertificateConfig>::empty()
    } else {
        let rest = self_signed_configs(configs.drop_last());
        if configs.last().cert_type == CertificateType::SelfSigned {
            rest.push(configs.last())
        } else {
            rest
        }
    }
}

/// What writing a self-signed certificate for `host` takes: the PEM text of a certificate
/// issued for `host` to the host's `.pem` path, then the PEM text of the private key that
/// signed that certificate to its `.key` path.
pub open spec fn self_signed_plan_matches(
    host: Seq<char>,
    cert_dir: Seq<char>,
    res: Result<Vec<FileWrite>, Error>,
) -> bool {
    match spec_certificate_paths(host, cert_dir) {
        None => res matches Err(Error::FileSystem(m)) && m@ == "Path traverses above the base directory"@,
        Some((k, c)) => match res {
            Ok(w) => {
                &&& w@.len() == 2
                &&& w@[0].path@ == c && is_certificate_pem(w@[0].content@)
                &&& is_self_signed_pair_for(w@[0].content@, w@[1].content@, host)
                &&& w@[1].path@ == k && is_private_key_pem(w@[1].content@)
            },
            Err(e) => e is Certificate,
        },
    }
}

/// For every route configured as `self_signed`, in order, the files that hold its freshly
/// generated certificate and key, or why they could not be produced. Routes of other types
/// are left alone; a failure for one host does not stop the others.
pub fn create_self_signed_certs(certificate_configs: &Vec<CertificateConfig>) -> (res: Vec<
    (Host, Result<Vec<FileWrite>, Error>),
>)
    ensures
        res@.len() == self_signed_configs(certificate_configs@).len(),
        forall|i: int|
            0 <= i < res@.len() ==> {
                let c = self_signed_configs(certificate_configs@)[i];
                &&& (#[trigger] res@[i]).0 == c.host
                &&& self_signed_plan_matches(c.host@, c.cert_dir@, res@[i].1)
            },
{
    let mut out: Vec<(Host, Result<Vec<FileWrite>, Error>)> = Vec::new();
    let mut i: usize = 0;
    while i < certificate_configs.len()
        invariant
            i <= certificate_configs.len(),
            out@.len() == self_signed_configs(certificate_configs@.take(i as int)).len(),
            forall|j: int|
                0 <= j < out@.len() ==> {
                    let c = self_signed_configs(certificate_configs@.take(i as int))[j];
                    &&& (#[trigger] out@[j]).0 == c.host
                    &&& self_signed_plan_matches(c.host@, c.cert_dir@, out@[j].1)
                },
        decreases certificate_configs.len() - i,
    {
        let config = &certificate_configs[i];
        let ghost pre = certificate_configs@.take(i as int);
        let ghost next = certificate_configs@.take(i as int + 1);
        assert(next.drop_last() =~= pre);
        assert(next.last() == certificate_configs@[i as int]);
        if config.cert_type == CertificateType::SelfSigned {
            let files = create_self_signed_certificate_files(config);
            let host = config.host.clone();
            let ghost old_out = out@;
            out.push((host, files));
            assert forall|j: int| 0 <= j < out@.len() implies {
                let c = self_signed_configs(next)[j];
                &&& (#[trigger] out@[j]).0 == c.host
                &&& self_signed_plan_matches(c.host@, c.cert_dir@, out@[j].1)
            } by {
                if j < old_out.len() {
                    assert(out@[j] == old_out[j]);
                    assert(self_signed_configs(next)[j] == self_signed_configs(pre)[j]);
                }
            }
        }
        i = i + 1;
    }
    assert(certificate_configs@.take(certificate_configs.len() as int) =~= certificate_configs@);
    out
}

} // verus!
