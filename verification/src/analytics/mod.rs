pub mod evidence_chain_state;
