pub mod events;
pub mod frame;
pub mod groupby;
pub mod layout;
pub mod model;
pub mod plot;
pub mod query;
pub mod search;
pub mod selection;
pub mod stats;
pub mod status;
pub mod text;
pub mod view;
