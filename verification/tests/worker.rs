use site_relay::resolve::{dispatch, RequestTarget, Route};
use site_relay::target::ProxyTarget;
use site_relay::worker::{render_service_worker, send_serviceworker};

fn proxy() -> ProxyTarget {
    ProxyTarget::new("http".to_string(), "example.test".to_string())
}

#[test]
fn worker_script_is_served_as_javascript() {
    let p = proxy();
    let found = dispatch(&RequestTarget::AbsolutePath("/service-worker.js".to_string()), &p);
    assert_eq!(found.map(|f| f.1), Ok(Route::ServiceWorker));
    let asset = send_serviceworker("const site = '{site}';\nfetch('//{site}/');\n", &p);
    assert_eq!(asset.content_type, "text/javascript");
    assert_eq!(asset.body, "const site = 'example.test';\nfetch('//example.test/');\n");
}

#[test]
fn template_without_placeholder_is_served_as_it_is() {
    assert_eq!(render_service_worker("self.skipWaiting();", &proxy()), "self.skipWaiting();");
    assert_eq!(render_service_worker("", &proxy()), "");
    assert_eq!(render_service_worker("{ site } {Site}", &proxy()), "{ site } {Site}");
}

#[test]
fn placeholder_is_filled_with_any_host() {
    let odd = ProxyTarget::new("http".to_string(), "{site}".to_string());
    assert_eq!(render_service_worker("a{site}b", &odd), "a{site}b");
    let none = ProxyTarget::new("http".to_string(), "".to_string());
    assert_eq!(render_service_worker("a{site}b{site}", &none), "ab");
}

#[test]
fn filling_is_done_in_one_pass() {
    let none = ProxyTarget::new("http".to_string(), "".to_string());
    assert_eq!(render_service_worker("{si{site}te}", &none), "{site}");
    let part = ProxyTarget::new("http".to_string(), "ite}".to_string());
    assert_eq!(render_service_worker("{s{site}", &part), "{site}");
}
