use neural_network::layer::feedforward::FeedForwardInfo;
use neural_network::layer::inputlayer::InputLayer;
use neural_network::layer::inputlayer::InputLayerInfo;
use neural_network::layer::outputlayer::OutputLayerInfo;
use neural_network::layer::LayerInfo;
use neural_network::layer::LayerInfoTrait;
use neural_network::ActivationFunction;
use neural_network::CostFunction;
use neural_network::InitType;

#[test]
fn input_layer_info_fields_and_shape() {
    let info = InputLayerInfo::new([28, 28, 1]);
    assert_eq!(info.sizes, [28, 28, 1]);
    assert_eq!(info.output(), [28, 28, 1]);
    assert_eq!(info.flattened_output(), 784);
}

#[test]
fn feedforward_info_fields_and_shape() {
    let info = FeedForwardInfo::new(ActivationFunction::Sigmoid, InitType::NormalisedXavier, 30);
    assert_eq!(info.activation_function, ActivationFunction::Sigmoid);
    assert_eq!(info.init_type, InitType::NormalisedXavier);
    assert_eq!(info.length, 30);
    assert_eq!(info.output(), [30, 1, 1]);
    assert_eq!(info.flattened_output(), 30);
}

#[test]
fn output_layer_info_fields_and_shape() {
    let info = OutputLayerInfo::new(
        ActivationFunction::Sigmoid,
        CostFunction::CrossEntropy,
        InitType::Xavier,
        10,
    );
    assert_eq!(info.activation_function, ActivationFunction::Sigmoid);
    assert_eq!(info.cost_function, CostFunction::CrossEntropy);
    assert_eq!(info.init_type, InitType::Xavier);
    assert_eq!(info.length, 10);
    assert_eq!(info.output(), [10, 1, 1]);
    assert_eq!(info.flattened_output(), 10);
}

#[test]
fn layer_info_output_dispatches_per_kind() {
    let input = LayerInfo::InputLayer(InputLayerInfo::new([3, 2, 2]));
    assert_eq!(input.output(), [3, 2, 2]);
    assert_eq!(input.flattened_output(), 12);

    let hidden = LayerInfo::FeedForward(FeedForwardInfo::new(
        ActivationFunction::Sigmoid,
        InitType::He,
        5,
    ));
    assert_eq!(hidden.output(), [5, 1, 1]);
    assert_eq!(hidden.flattened_output(), 5);

    let output = LayerInfo::OutputLayer(OutputLayerInfo::new(
        ActivationFunction::Softmax,
        CostFunction::LogLikelyhood,
        InitType::He,
        4,
    ));
    assert_eq!(output.output(), [4, 1, 1]);
    assert_eq!(output.flattened_output(), 4);
}

#[test]
fn input_layer_forward_is_identity() {
    let mut layer = InputLayer::new(InputLayerInfo::new([3, 1, 1]));
    let input: Vec<u32> = vec![
        0.5f32.to_bits(),
        (-1.25f32).to_bits(),
        3.0f32.to_bits(),
    ];
    layer.forward(input.clone());
    assert_eq!(layer.last_output(), input);
    assert_eq!(layer.last_z_values(), input);
    let back: Vec<f32> = layer
        .last_output()
        .iter()
        .map(|&b| f32::from_bits(b))
        .collect();
    assert_eq!(back, vec![0.5, -1.25, 3.0]);
}

#[test]
fn input_layer_forward_refreshes_cache() {
    let mut layer = InputLayer::new(InputLayerInfo::new([2, 1, 1]));
    layer.forward(vec![1, 2]);
    layer.forward(vec![3, 4]);
    assert_eq!(layer.last_output(), vec![3, 4]);
}

#[test]
fn input_layer_starts_with_empty_cache() {
    let layer = InputLayer::new(InputLayerInfo::new([4, 1, 1]));
    assert_eq!(layer.last_output(), Vec::<u32>::new());
}

#[test]
fn input_layer_update_is_a_no_op() {
    let mut layer = InputLayer::new(InputLayerInfo::new([2, 1, 1]));
    layer.forward(vec![5, 6]);
    layer.update();
    layer.update_change();
    assert_eq!(layer.last_output(), vec![5, 6]);
}

#[test]
fn input_layer_backward_passes_through() {
    let mut layer = InputLayer::new(InputLayerInfo::new([2, 1, 1]));
    layer.forward(vec![10, 20]);
    let errors: Vec<u32> = vec![7, 8, 9];
    let weights: Vec<u32> = vec![1, 2, 3, 4, 5, 6];
    let (errors_out, weights_out, dim_out) = layer.backward(&errors, (weights.clone(), [3, 2, 1]));
    assert_eq!(errors_out, errors);
    assert_eq!(weights_out, weights);
    assert_eq!(dim_out, [3, 2, 1]);
}
