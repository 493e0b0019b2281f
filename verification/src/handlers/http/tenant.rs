pub mod tenant_routes;
