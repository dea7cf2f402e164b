//! Body-measurement service library: size charts, silhouette-mask scanning,
//! landmark checks and the request rules of the measurement endpoint.

pub mod size_map;
pub mod photo;
pub mod segmentation;
pub mod pose;
pub mod measure;
pub mod service;
