//! Publishing and removing the `TXT` record of an ACME DNS-01 challenge.
//!
//! The library holds the decisions: where the challenge record lives for a
//! given domain ([`domain_name`]), how the records that a DNS provider reports
//! are brought to the wanted state ([`reconcile`], with the properties of
//! whole runs in [`model`]), and what the provider clients read from and
//! write to their APIs ([`dnspod`], [`aliyun`], [`decimal`]). Talking to a
//! provider is left to the caller, which performs each requested action and
//! reports its outcome back.
pub mod aliyun;
pub mod decimal;
pub mod dnspod;
pub mod domain_name;
pub mod model;
pub mod reconcile;
