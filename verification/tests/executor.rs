use mi_reth_evm::{MitosisBlockExecutor, MitosisBlockExecutorFactory, MitosisExecutorBuilder};

#[test]
fn executor_wraps_the_given_inner_executor() {
    let exec = MitosisBlockExecutor::new(vec![1u8, 2, 3]);
    assert_eq!(exec.into_inner(), vec![1u8, 2, 3]);
}

#[test]
fn factory_wraps_the_given_inner_factory() {
    let factory = MitosisBlockExecutorFactory::new(String::from("upstream"));
    let copy = factory.clone();
    assert_eq!(factory.into_inner(), "upstream");
    assert_eq!(copy.into_inner(), "upstream");
}

#[test]
fn executor_builder_is_a_copyable_default() {
    let builder = MitosisExecutorBuilder::default();
    let copy = builder;
    assert_eq!(format!("{:?}", copy), "MitosisExecutorBuilder");
}
