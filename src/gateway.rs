//! Web addresses of published apps on a gateway, and the text that shares
//! them.
use vstd::prelude::*;
use vstd::string::*;
use crate::error::Result;
use crate::slug::subdomain_of;
use crate::text::{chars_of, ends_with, push_str, slice_chars, starts_with, string_of};
use crate::types::AppId;

verus! {

/// Where the gateway is reached.
#[derive(Debug)]
pub struct GatewayConfig {
    pub domain: String,
    pub use_https: bool,
    pub subdomain_prefix: Option<String>,
}

impl Default for GatewayConfig {
    fn default() -> (r: GatewayConfig)
        ensures
            r.domain@ == "localhost:8080"@,
            !r.use_https,
            r.subdomain_prefix is None,
    {
        GatewayConfig { domain: String::from_str("localhost:8080"), use_https: false, subdomain_prefix: None }
    }
}

/// The label of an app under the gateway: its name's subdomain label, or
/// else the first 12 characters of its id; after `<prefix>-` where a prefix
/// is set.
pub open spec fn subdomain_text(app_id: Seq<char>, app_name: Option<Seq<char>>, prefix: Option<Seq<char>>) -> Seq<
    char,
> {
    let base = match app_name {
        Some(n) => subdomain_of(n),
        None => if app_id.len() <= 12 {
            app_id
        } else {
            app_id.take(12)
        },
    };
    match prefix {
        Some(p) => p + "-"@ + base,
        None => base,
    }
}

/// `<protocol>://<label>.<domain>`.
pub open spec fn url_text(https: bool, label: Seq<char>, domain: Seq<char>) -> Seq<char> {
    (if https {
        "https"@
    } else {
        "http"@
    }) + "://"@ + label + "."@ + domain
}

/// The sharing text of an app.
pub open spec fn sharing_text(url: Seq<char>, app_id: Seq<char>) -> Seq<char> {
    "🚀 Share your app:\n\n🌐 Web Access: "@ + url + "\n🔗 DHT Key: "@ + app_id
        + "\n\n💡 Users can access via:\n• Web browser (any device)\n• Veilid-native apps\n• Direct DHT lookup"@
}

/// The setup instructions of an app.
pub open spec fn setup_text(url: Seq<char>, alternatives: Seq<char>, label: Seq<char>, app_id: Seq<char>, domain: Seq<char>) -> Seq<char> {
    "🌐 Universal Gateway Access:\n\n✅ INSTANT ACCESS (No setup required):\n   🔗 Primary: "@ + url
        + "\n   📱 Mobile friendly with HTTPS\n   🚀 Automatic DHT resolution\n   \n🌍 Alternative Gateways:\n"@
        + alternatives + "\n\n💡 How it works:\n   • Gateway resolves "@ + label + " to DHT key: "@ + app_id
        + "\n   • Fetches content from Veilid DHT in real-time\n   • Serves over HTTPS with proper caching\n   • No DNS setup required on your part\n\n🔧 For your own domain (optional):\n   • Add DNS TXT: your-domain.com. IN TXT \"veilid-app="@
        + app_id + "\"\n   • Deploy gateway code (see docs)\n   • Or use DNS CNAME: your-domain.com. CNAME "@ + label
        + "."@ + domain
}

/// Turns app ids into web addresses on one gateway.
#[derive(Debug)]
pub struct UniversalGateway {
    pub config: GatewayConfig,
}

impl UniversalGateway {
    /// The gateway at `localhost:8080`, over http.
    pub fn new() -> (r: UniversalGateway)
        ensures
            r.config.domain@ == "localhost:8080"@,
            !r.config.use_https,
            r.config.subdomain_prefix is None,
    {
        UniversalGateway { config: GatewayConfig::default() }
    }

    /// The gateway at `host[:port]`: an `https://` or `http://` in front
    /// says which protocol, and is dropped; without one, https is taken for
    /// the ports 443 and 8443.
    pub fn from_domain(domain_str: &str) -> (r: UniversalGateway)
        ensures
            domain_str@.len() >= 8 && domain_str@.take(8) == "https://"@ ==> r.config.domain@ == domain_str@.skip(8)
                && r.config.use_https,
            !(domain_str@.len() >= 8 && domain_str@.take(8) == "https://"@) && domain_str@.len() >= 7
                && domain_str@.take(7) == "http://"@ ==> r.config.domain@ == domain_str@.skip(7) && !r.config.use_https,
            !(domain_str@.len() >= 8 && domain_str@.take(8) == "https://"@) && !(domain_str@.len() >= 7
                && domain_str@.take(7) == "http://"@) ==> r.config.domain@ == domain_str@ && r.config.use_https == (
            (domain_str@.len() >= 4 && domain_str@.skip(domain_str@.len() - 4) == ":443"@) || (domain_str@.len()
                >= 5 && domain_str@.skip(domain_str@.len() - 5) == ":8443"@)),
            r.config.subdomain_prefix is None,
    {
        let s = chars_of(domain_str);
        let https = chars_of("https://");
        let http = chars_of("http://");
        let p443 = chars_of(":443");
        let p8443 = chars_of(":8443");
        proof {
            reveal_strlit("https://");
            reveal_strlit("http://");
            reveal_strlit(":443");
            reveal_strlit(":8443");
        }
        let (domain, use_https) = if starts_with(s.as_slice(), https.as_slice()) {
            (slice_chars(s.as_slice(), 8, s.len()), true)
        } else if starts_with(s.as_slice(), http.as_slice()) {
            (slice_chars(s.as_slice(), 7, s.len()), false)
        } else {
            let guess = ends_with(s.as_slice(), p443.as_slice()) || ends_with(s.as_slice(), p8443.as_slice());
            (slice_chars(s.as_slice(), 0, s.len()), guess)
        };
        assert(s@.subrange(0, s@.len() as int) =~= s@);
        assert(s@.subrange(8, s@.len() as int) =~= s@.skip(8));
        assert(s@.subrange(7, s@.len() as int) =~= s@.skip(7));
        proof {
            if s@.len() >= 4 {
                assert(s@.subrange(s@.len() - 4, s@.len() as int) =~= s@.skip(s@.len() - 4));
            }
            if s@.len() >= 5 {
                assert(s@.subrange(s@.len() - 5, s@.len() as int) =~= s@.skip(s@.len() - 5));
            }
        }
        let mut gw = Self::new();
        gw.config.domain = string_of(domain.as_slice());
        gw.config.use_https = use_https;
        gw
    }

    /// The label of an app on this gateway (see `subdomain_text`).
    pub fn generate_subdomain(&self, app_id: &AppId, app_name: Option<&str>) -> (r: String)
        ensures
            r@ == subdomain_text(app_id.0@, opt_str(app_name), opt_view_ref(&self.config.subdomain_prefix)),
    {
        self.generate_subdomain_for_config(app_id, app_name, &self.config)
    }

    /// The label of an app on the gateway that `config` describes.
    pub fn generate_subdomain_for_config(&self, app_id: &AppId, app_name: Option<&str>, config: &GatewayConfig) -> (r:
        String)
        ensures
            r@ == subdomain_text(app_id.0@, opt_str(app_name), opt_view_ref(&config.subdomain_prefix)),
    {
        let base = match app_name {
            Some(name) => crate::slug::subdomain_label(name),
            None => {
                let id = chars_of(app_id.0.as_str());
                let n: usize = if id.len() <= 12 { id.len() } else { 12 };
                let head = slice_chars(id.as_slice(), 0, n);
                assert(id@.len() <= 12 ==> head@ =~= id@);
                string_of(head.as_slice())
            },
        };
        match &config.subdomain_prefix {
            Some(prefix) => {
                let mut v: Vec<char> = Vec::new();
                push_str(&mut v, prefix.as_str());
                push_str(&mut v, "-");
                push_str(&mut v, base.as_str());
                string_of(v.as_slice())
            },
            None => base,
        }
    }

    /// The web address of an app on this gateway.
    pub fn generate_url(&self, app_id: &AppId, app_name: Option<&str>) -> (r: Result<String>)
        ensures
            r matches Ok(u) && u@ == url_text(
                self.config.use_https,
                subdomain_text(app_id.0@, opt_str(app_name), opt_view_ref(&self.config.subdomain_prefix)),
                self.config.domain@,
            ),
    {
        let label = self.generate_subdomain(app_id, app_name);
        let mut v: Vec<char> = Vec::new();
        if self.config.use_https {
            push_str(&mut v, "https");
        } else {
            push_str(&mut v, "http");
        }
        push_str(&mut v, "://");
        push_str(&mut v, label.as_str());
        push_str(&mut v, ".");
        push_str(&mut v, self.config.domain.as_str());
        Ok(string_of(v.as_slice()))
    }

    /// Every gateway address of an app, as (gateway domain, address): the
    /// one gateway this manager knows.
    pub fn generate_all_urls(&self, app_id: &AppId, app_name: Option<&str>) -> (r: Vec<(String, String)>)
        ensures
            r@.len() == 1,
            r@[0].0 == self.config.domain,
            r@[0].1@ == url_text(
                self.config.use_https,
                subdomain_text(app_id.0@, opt_str(app_name), opt_view_ref(&self.config.subdomain_prefix)),
                self.config.domain@,
            ),
    {
        let url = match self.generate_url(app_id, app_name) {
            Ok(u) => u,
            Err(_) => String::new(),
        };
        let mut r: Vec<(String, String)> = Vec::new();
        r.push((self.config.domain.clone(), url));
        r
    }

    /// The list of other gateways of an app, one `   🔗 <domain>: <url>`
    /// line each, or `   (none)` where there is only the primary one.
    pub fn format_alternative_gateways(&self, app_id: &AppId, app_name: Option<&str>) -> (r: String)
        ensures
            r@ == "   (none)"@,
    {
        let urls = self.generate_all_urls(app_id, app_name);
        if urls.len() <= 1 {
            String::from_str("   (none)")
        } else {
            let mut v: Vec<char> = Vec::new();
            let mut i: usize = 0;
            while i < urls.len()
                decreases urls@.len() - i,
            {
                if i > 0 {
                    push_str(&mut v, "\n");
                }
                push_str(&mut v, "   🔗 ");
                push_str(&mut v, urls[i].0.as_str());
                push_str(&mut v, ": ");
                push_str(&mut v, urls[i].1.as_str());
                i = i + 1;
            }
            string_of(v.as_slice())
        }
    }

    /// How to reach an app through this gateway, and how to bind a domain
    /// of one's own to it.
    pub fn generate_setup_instructions(&self, app_id: &AppId, app_name: Option<&str>) -> (r: String)
        ensures
            r@ == setup_text(
                url_text(
                    self.config.use_https,
                    subdomain_text(app_id.0@, opt_str(app_name), opt_view_ref(&self.config.subdomain_prefix)),
                    self.config.domain@,
                ),
                "   (none)"@,
                subdomain_text(app_id.0@, opt_str(app_name), opt_view_ref(&self.config.subdomain_prefix)),
                app_id.0@,
                self.config.domain@,
            ),
    {
        let label = self.generate_subdomain(app_id, app_name);
        let url = match self.generate_url(app_id, app_name) {
            Ok(u) => u,
            Err(_) => String::new(),
        };
        let alternatives = self.format_alternative_gateways(app_id, app_name);
        let mut v: Vec<char> = Vec::new();
        push_str(&mut v, "🌐 Universal Gateway Access:\n\n✅ INSTANT ACCESS (No setup required):\n   🔗 Primary: ");
        push_str(&mut v, url.as_str());
        push_str(&mut v, "\n   📱 Mobile friendly with HTTPS\n   🚀 Automatic DHT resolution\n   \n🌍 Alternative Gateways:\n");
        push_str(&mut v, alternatives.as_str());
        push_str(&mut v, "\n\n💡 How it works:\n   • Gateway resolves ");
        push_str(&mut v, label.as_str());
        push_str(&mut v, " to DHT key: ");
        push_str(&mut v, app_id.0.as_str());
        push_str(&mut v, "\n   • Fetches content from Veilid DHT in real-time\n   • Serves over HTTPS with proper caching\n   • No DNS setup required on your part\n\n🔧 For your own domain (optional):\n   • Add DNS TXT: your-domain.com. IN TXT \"veilid-app=");
        push_str(&mut v, app_id.0.as_str());
        push_str(&mut v, "\"\n   • Deploy gateway code (see docs)\n   • Or use DNS CNAME: your-domain.com. CNAME ");
        push_str(&mut v, label.as_str());
        push_str(&mut v, ".");
        push_str(&mut v, self.config.domain.as_str());
        string_of(v.as_slice())
    }

    /// The text to share an app with.
    pub fn generate_sharing_text(&self, app_id: &AppId, app_name: Option<&str>) -> (r: String)
        ensures
            r@ == sharing_text(
                url_text(
                    self.config.use_https,
                    subdomain_text(app_id.0@, opt_str(app_name), opt_view_ref(&self.config.subdomain_prefix)),
                    self.config.domain@,
                ),
                app_id.0@,
            ),
    {
        let url = match self.generate_url(app_id, app_name) {
            Ok(u) => u,
            Err(_) => String::new(),
        };
        let mut v: Vec<char> = Vec::new();
        push_str(&mut v, "🚀 Share your app:\n\n🌐 Web Access: ");
        push_str(&mut v, url.as_str());
        push_str(&mut v, "\n🔗 DHT Key: ");
        push_str(&mut v, app_id.0.as_str());
        push_str(&mut v, "\n\n💡 Users can access via:\n• Web browser (any device)\n• Veilid-native apps\n• Direct DHT lookup");
        string_of(v.as_slice())
    }
}

/// The view of an optional string slice.
pub open spec fn opt_str(o: Option<&str>) -> Option<Seq<char>> {
    match o {
        Some(s) => Some(s@),
        None => None,
    }
}

/// The view of an optional string.
pub open spec fn opt_view_ref(o: &Option<String>) -> Option<Seq<char>> {
    match o {
        Some(s) => Some(s@),
        None => None,
    }
}

} // verus!
