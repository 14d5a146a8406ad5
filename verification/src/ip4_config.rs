//! The IPv4 configuration surface of the network-management service.
//!
//! The underlying service exposes these as properties of its IPv4
//! configuration objects.  The trait states the shape of that surface over
//! plain values; the bus-side proxy that answers it lives outside the
//! library.

use vstd::prelude::*;

use crate::wireless_types::TransportFault;

verus! {

/// Property reads of one IPv4 configuration object.  Every read may fail
/// with a transport fault when the service is unreachable.
pub trait IP4Config {
    /// The configured addresses, each as address/prefix/gateway words.
    fn addresses(&self) -> Result<Vec<Vec<u32>>, TransportFault>;

    /// Resolver options.
    fn dns_options(&self) -> Result<Vec<String>, TransportFault>;

    /// Priority of this configuration's resolvers.
    fn dns_priority(&self) -> Result<i32, TransportFault>;

    /// Search domains.
    fn domains(&self) -> Result<Vec<String>, TransportFault>;

    /// The gateway address.
    fn gateway(&self) -> Result<String, TransportFault>;

    /// Nameserver addresses.
    fn nameservers(&self) -> Result<Vec<u32>, TransportFault>;

    /// Configured routes, each as destination/prefix/next-hop/metric words.
    fn routes(&self) -> Result<Vec<Vec<u32>>, TransportFault>;

    /// Search list entries.
    fn searches(&self) -> Result<Vec<String>, TransportFault>;

    /// Windows name servers, as strings.
    fn wins_server_data(&self) -> Result<Vec<String>, TransportFault>;

    /// Windows name servers, as address words.
    fn wins_servers(&self) -> Result<Vec<u32>, TransportFault>;
}

} // verus!
