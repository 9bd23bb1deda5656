pub mod self_signed;
