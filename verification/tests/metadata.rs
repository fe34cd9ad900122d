use crm::metadata::config::{AuthConfig, ServerConfig};
use crm::metadata::{AppConfig, MetadataService};

#[test]
fn service_is_made_and_installed() {
    let config = AppConfig { server: ServerConfig { port: 50001 }, auth: AuthConfig { pk: "pk".to_string() } };
    let server = MetadataService::new(config).into_server();
    let text = format!("{:?}", server);
    assert!(text.contains("50001"));
    assert!(text.contains("\"pk\""));
}
