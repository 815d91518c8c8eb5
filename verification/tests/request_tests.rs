use discord_bot::client::{Client, FetchGuilds};
use discord_bot::codec::GatewayError;
use discord_bot::connector::{
    bootstrap_failure, bot_authorization, gateway_request, gateway_url, BootstrapStep,
};
use discord_bot::guild::GuildFeature;
use discord_bot::request::{HTTPMethod, Request};
use discord_bot::user::{PremiumType, User};

fn sample_user() -> User {
    User {
        id: 42,
        username: "bot".to_string(),
        discriminator: "0042".to_string(),
        avatar: None,
        bot: Some(true),
        system: None,
        mfa_enabled: None,
        banner: None,
        accent_color: None,
        locale: None,
        verified: None,
        email: None,
        flags: None,
        premium_type: None,
        public_flags: None,
    }
}

#[test]
fn request_builders_pick_the_verb() {
    assert_eq!(Request::get("/a").route.method, HTTPMethod::Get);
    assert_eq!(Request::head("/a").route.method, HTTPMethod::Head);
    assert_eq!(Request::post("/a").route.method, HTTPMethod::Post);
    assert_eq!(Request::put("/a").route.method, HTTPMethod::Put);
    assert_eq!(Request::delete("/a").route.method, HTTPMethod::Delete);
    assert_eq!(Request::get("/a").route.endpoint, "/a");
}

#[test]
fn params_keep_order_and_repeat() {
    let mut r = Request::get("/x").with_param("v", "9");
    r.add_param("encoding", "json");
    r.add_param("v", "10");
    let params: Vec<(String, String)> = r.params;
    assert_eq!(
        params,
        vec![
            ("v".to_string(), "9".to_string()),
            ("encoding".to_string(), "json".to_string()),
            ("v".to_string(), "10".to_string()),
        ]
    );
}

#[test]
fn add_params_appends_a_batch() {
    let mut r = Request::get("/x");
    r.add_params(vec![("a", "1"), ("b", "2")]);
    assert_eq!(
        r.params,
        vec![("a".to_string(), "1".to_string()), ("b".to_string(), "2".to_string())]
    );
}

#[test]
fn headers_hold_each_key_once() {
    let mut r = Request::get("/x").with_header("Accept", "a");
    r.add_header("Accept", "b");
    assert_eq!(r.headers, vec![("Accept".to_string(), "b".to_string())]);
    r.add_headers(vec![("X-One", "1"), ("Accept", "c")]);
    assert_eq!(
        r.headers,
        vec![("X-One".to_string(), "1".to_string()), ("Accept".to_string(), "c".to_string())]
    );
}

#[test]
fn authorize_sets_the_bot_header() {
    let r = Request::get("/x").authorize("token-1");
    assert_eq!(r.headers, vec![("Authorization".to_string(), "Bot token-1".to_string())]);
}

#[test]
fn full_url_joins_base_and_endpoint() {
    let r = Request::get("/gateway/bot");
    assert_eq!(r.full_url(), "https://discord.com/api/v9/gateway/bot");
}

#[test]
fn gateway_request_carries_version_and_encoding() {
    let r = gateway_request("tok");
    assert_eq!(r.route.method, HTTPMethod::Get);
    assert_eq!(r.route.endpoint, "/gateway/bot");
    assert_eq!(r.headers, vec![("Authorization".to_string(), "Bot tok".to_string())]);
    assert_eq!(
        r.params,
        vec![("v".to_string(), "9".to_string()), ("encoding".to_string(), "json".to_string())]
    );
}

#[test]
fn bootstrap_failures_surface_by_step() {
    assert_eq!(
        bootstrap_failure(BootstrapStep::ResolveEndpoint),
        GatewayError::BootstrapFailure
    );
    assert_eq!(bootstrap_failure(BootstrapStep::OpenSocket), GatewayError::TransportFailure);
}

#[test]
fn gateway_url_appends_the_query() {
    assert_eq!(gateway_url("wss://gateway.example"), "wss://gateway.example/?v=9&encoding=json");
    assert_eq!(bot_authorization("tok"), "Bot tok");
}

#[test]
fn fetch_guilds_builder_composes_the_call() {
    let client = Client::new(sample_user(), "tok");
    assert_eq!(client.token, "tok");
    assert_eq!(client.user.id, 42);
    let builder = client.fetch_guilds();
    assert!(builder.before.is_none() && builder.after.is_none() && builder.limit.is_none());
    let builder = builder.before(300).after(100).limit(50);
    assert_eq!(builder.before, Some(300));
    assert_eq!(builder.after, Some(100));
    assert_eq!(builder.limit, Some(50));
    let request = builder.build_request();
    assert_eq!(request.route.method, HTTPMethod::Get);
    assert_eq!(request.route.endpoint, "/users/@me/guilds");
    assert_eq!(request.headers, vec![("Authorization".to_string(), "Bot tok".to_string())]);
    assert_eq!(
        request.params,
        vec![
            ("before".to_string(), "300".to_string()),
            ("after".to_string(), "100".to_string()),
            ("limit".to_string(), "50".to_string()),
        ]
    );
}

#[test]
fn fetch_guilds_without_options_sends_no_params() {
    let request = FetchGuilds::default("tok").build_request();
    assert!(request.params.is_empty());
}

#[test]
fn guild_feature_names_resolve() {
    assert_eq!(GuildFeature::from_str("ANIMATED_ICON"), GuildFeature::AnimatedIcon);
    assert_eq!(GuildFeature::from_str("BANNER"), GuildFeature::Banner);
    assert_eq!(GuildFeature::from_str("VANITY_URL"), GuildFeature::VanityURL);
    assert_eq!(
        GuildFeature::from_str("WELCOME_SCREEN_ENABLED"),
        GuildFeature::WelcomeScreenEnabled
    );
}

#[test]
fn premium_type_resolves_known_values() {
    assert_eq!(PremiumType::from(0), PremiumType::NoPremium);
    assert_eq!(PremiumType::from(1), PremiumType::NitroClassic);
    assert_eq!(PremiumType::from(2), PremiumType::Nitro);
}
