//! The TXT records of the DNS zones of an account.

use vstd::prelude::*;

use crate::azure::account::Account;
use crate::azure::management::dns;
use crate::azure::Call;
use crate::text;

verus! {

impl<'a> Account<'a> {
    /// Creates a TXT record for a name in a DNS zone.
    pub fn dns_txt_record_create(&self, dns_zone_name: &str, name: &str, content: &str) -> (r: Call)
        ensures
            r@ == dns::txt_create_call(dns_zone_name@, name@, seq![content@]),
    {
        let contents = vec![content.to_owned()];
        assert(text::texts(contents@) =~= seq![content@]);
        dns::create_txt(dns_zone_name, name, &contents)
    }

    /// Deletes the TXT records of a name in a DNS zone.
    pub fn dns_txt_record_delete(&self, dns_zone_name: &str, name: &str) -> (r: Call)
        ensures
            r@ == dns::txt_delete_call(dns_zone_name@, name@),
    {
        dns::delete_txt(dns_zone_name, name)
    }
}

} // verus!
