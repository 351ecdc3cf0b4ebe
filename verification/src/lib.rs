pub mod utils;
pub mod vendor;
pub mod intel_ext_topo_0bh_1fh;
pub mod intel_hybrid_core_info;
pub mod parse_cpuid;

pub use utils::CpuidResult;
pub use intel_ext_topo_0bh_1fh::{TopoLevelType, IntelExtTopo};
