pub mod net_impairment;
