use adlib::resample::resample;

#[test]
fn test_resample() {
    let samples: Vec<i16> = vec![0, 1, 0, -1];
    let resampled = resample(&samples, 4, 2);
    assert_eq!(resampled.len(), 2);
}

#[test]
fn resample_same_rate_is_identity() {
    let samples: Vec<i16> = vec![5, -7, 32767, -32768, 0];
    assert_eq!(resample(&samples, 16000, 16000), samples);
    assert_eq!(resample(&[], 44100, 44100), Vec::<i16>::new());
}

#[test]
fn resample_length_is_floor() {
    let samples: Vec<i16> = vec![0; 1000];
    assert_eq!(resample(&samples, 48000, 16000).len(), 333);
    assert_eq!(resample(&samples, 44100, 16000).len(), 362);
    assert_eq!(resample(&samples, 8000, 16000).len(), 2000);
    assert_eq!(resample(&[], 48000, 16000).len(), 0);
}

#[test]
fn resample_interpolates_linearly() {
    // Upsampling by two puts the midpoint between neighbours.
    let samples: Vec<i16> = vec![0, 100, -100];
    assert_eq!(resample(&samples, 1, 2), vec![0, 50, 100, 0, -100, -100]);
    // Downsampling by three keeps every third sample.
    let samples: Vec<i16> = vec![1, 2, 3, 4, 5, 6];
    assert_eq!(resample(&samples, 3, 1), vec![1, 4]);
    // Blends round down, also below zero.
    assert_eq!(resample(&[0, -1], 1, 2), vec![0, -1, -1, -1]);
    assert_eq!(resample(&[32767, -32768], 1, 2), vec![32767, -1, -32768, -32768]);
}
